use async_ssh2_lite::error::{EngineError, Error};
use async_ssh2_lite::session::{SessionConfiguration, SessionOption};

#[test]
fn a_fresh_configuration_plans_nothing() {
    let configuration = SessionConfiguration::new();
    assert!(configuration.option_plan().is_empty());
    let defaulted = SessionConfiguration::default();
    assert!(defaulted.option_plan().is_empty());
}

#[test]
fn every_set_option_is_planned_in_order() {
    let mut configuration = SessionConfiguration::new();
    configuration.set_banner("SSH-2.0-bridge");
    configuration.set_allow_sigpipe(true);
    configuration.set_compress(false);
    configuration.set_timeout(1500);
    configuration.set_keepalive(true, 30);

    let plan = configuration.option_plan();
    assert_eq!(plan.len(), 5);
    match &plan[0] {
        SessionOption::Banner(b) => assert_eq!(b, "SSH-2.0-bridge"),
        _ => panic!("the banner is applied first"),
    }
    assert!(matches!(plan[1], SessionOption::AllowSigpipe(true)));
    assert!(matches!(plan[2], SessionOption::Compress(false)));
    assert!(matches!(plan[3], SessionOption::TimeoutMs(1500)));
    assert!(matches!(plan[4], SessionOption::Keepalive { want_reply: true, interval: 30 }));
}

#[test]
fn unset_options_are_left_out_of_the_plan() {
    let mut configuration = SessionConfiguration::new();
    configuration.set_compress(true);
    configuration.set_keepalive(false, 60);
    let plan = configuration.option_plan();
    assert_eq!(plan.len(), 2);
    assert!(matches!(plan[0], SessionOption::Compress(true)));
    assert!(matches!(plan[1], SessionOption::Keepalive { want_reply: false, interval: 60 }));
}

#[test]
fn a_cloned_configuration_plans_the_same_calls() {
    let mut configuration = SessionConfiguration::new();
    configuration.set_banner("SSH-2.0-bridge");
    configuration.set_timeout(250);
    let clone = configuration.clone();
    assert_eq!(clone.option_plan().len(), configuration.option_plan().len());
    assert_eq!(clone.timeout, Some(250));
}

#[test]
fn error_accessors_pick_their_own_domain() {
    let engine = Error::Ssh2(EngineError::new(-18, "denied".to_owned()));
    assert!(engine.as_ssh2().is_some());
    assert!(engine.as_io().is_none());
    assert!(engine.as_other().is_none());
    assert_eq!(engine.as_ssh2().unwrap().code, -18);

    let io = Error::Io("broken pipe".to_owned());
    assert!(io.as_ssh2().is_none());
    assert_eq!(io.as_io().unwrap(), "broken pipe");
    assert!(io.as_other().is_none());

    let other = Error::Other("no identities found in the ssh agent".to_owned());
    assert!(other.as_ssh2().is_none());
    assert!(other.as_io().is_none());
    assert_eq!(other.as_other().unwrap(), "no identities found in the ssh agent");
}

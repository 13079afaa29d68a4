//! The file-transfer directory listing: repeated engine `readdir` calls
//! accumulated into one result.
//!
//! The engine hands back one entry per call and ends the listing with a
//! specific error code — "no entry is left" — which is the expected
//! termination condition, never a failure to the caller. The `.` and
//! `..` pseudo-entries are skipped, and every kept name is joined to the
//! queried directory to form a full path.

use vstd::prelude::*;
use vstd::string::StrSliceExecFns;
use vstd::string::StringExecFns;

use crate::error::{EngineError, Error, LIBSSH2_ERROR_FILE};

verus! {

/// File attributes of a directory entry, each optional because the
/// engine omits what the server did not send.
#[derive(Clone, Copy, Debug, PartialEq, Eq)]
pub struct FileStat {
    pub size: Option<u64>,
    pub uid: Option<u32>,
    pub gid: Option<u32>,
    pub perm: Option<u32>,
    pub atime: Option<u64>,
    pub mtime: Option<u64>,
}

/// The two entries every directory lists about itself; a listing keeps
/// neither.
pub open spec fn is_pseudo_entry(name: Seq<char>) -> bool {
    name == "."@ || name == ".."@
}

pub fn name_is_pseudo(name: &String) -> (r: bool)
    ensures
        r == is_pseudo_entry(name@),
{
    let dot: String = ".".to_owned();
    let dotdot: String = "..".to_owned();
    *name == dot || *name == dotdot
}

/// A name joined to the directory it was listed in: a separator is
/// added unless the directory is empty or already ends in one.
pub open spec fn joined_path(dir: Seq<char>, name: Seq<char>) -> Seq<char> {
    if dir.len() == 0 {
        name
    } else if dir.last() == '/' {
        dir + name
    } else {
        dir + "/"@ + name
    }
}

pub fn join_path(dir: &str, name: &str) -> (r: String)
    ensures
        r@ == joined_path(dir@, name@),
{
    let mut r = String::new();
    r.append(dir);
    let n = dir.unicode_len();
    if n > 0 && dir.get_char(n - 1) != '/' {
        r.append("/");
    }
    r.append(name);
    r
}

/// What the whole listing returns, given the sequence of outcomes the
/// opened directory handle yields, one per engine `readdir` call: the
/// kept entries of the prefix before the first error, with joined
/// paths; the no-entry-left code ends the listing successfully, any
/// other error is surfaced. By the engine's contract a listing always
/// ends with an error outcome; a recording cut short before one is
/// taken as a complete listing.
pub open spec fn readdir_spec(
    dir: Seq<char>,
    outcomes: Seq<Result<(String, FileStat), EngineError>>,
) -> Result<Seq<(Seq<char>, FileStat)>, Error>
    decreases outcomes.len(),
{
    if outcomes.len() == 0 {
        Ok(Seq::empty())
    } else {
        match outcomes[0] {
            Ok(entry) => match readdir_spec(dir, outcomes.drop_first()) {
                Ok(rest) => if is_pseudo_entry(entry.0@) {
                    Ok(rest)
                } else {
                    Ok(seq![(joined_path(dir, entry.0@), entry.1)] + rest)
                },
                Err(e) => Err(e),
            },
            Err(e) => if e.code == LIBSSH2_ERROR_FILE {
                Ok(Seq::empty())
            } else {
                Err(Error::Ssh2(e))
            },
        }
    }
}

/// The view of a built listing: each entry's path as a character
/// sequence, beside its attributes.
pub open spec fn entries_view(entries: Seq<(String, FileStat)>) -> Seq<(Seq<char>, FileStat)> {
    entries.map_values(|p: (String, FileStat)| (p.0@, p.1))
}

/// Accumulates a directory listing from the recorded outcomes of the
/// engine's `readdir` calls, exactly as [`readdir_spec`] states it.
pub fn readdir(dir: &str, outcomes: &Vec<Result<(String, FileStat), EngineError>>) -> (r: Result<
    Vec<(String, FileStat)>,
    Error,
>)
    ensures
        match r {
            Ok(entries) => readdir_spec(dir@, outcomes@) == Ok::<_, Error>(
                entries_view(entries@),
            ),
            Err(e) => readdir_spec(dir@, outcomes@) == Err::<Seq<(Seq<char>, FileStat)>, _>(e),
        },
{
    let n = outcomes.len();
    let mut kept: Vec<(String, FileStat)> = Vec::new();
    let mut i: usize = 0;
    proof {
        assert(outcomes@.subrange(0, n as int) =~= outcomes@);
        match readdir_spec(dir@, outcomes@) {
            Ok(rest) => {
                assert(entries_view(kept@) + rest =~= rest);
            },
            Err(_) => {},
        }
    }
    while i < n
        invariant
            n == outcomes@.len(),
            i <= n,
            readdir_spec(dir@, outcomes@) == (match readdir_spec(
                dir@,
                outcomes@.subrange(i as int, n as int),
            ) {
                Ok(rest) => Ok::<_, Error>(entries_view(kept@) + rest),
                Err(e) => Err::<Seq<(Seq<char>, FileStat)>, _>(e),
            }),
        decreases n - i,
    {
        proof {
            assert(outcomes@.subrange(i as int, n as int).drop_first() =~= outcomes@.subrange(
                i + 1,
                n as int,
            ));
            assert(outcomes@.subrange(i as int, n as int)[0] == outcomes@[i as int]);
        }
        let ghost pre = kept@;
        match &outcomes[i] {
            Ok(entry) => {
                if !name_is_pseudo(&entry.0) {
                    let path = join_path(dir, entry.0.as_str());
                    kept.push((path, entry.1));
                    proof {
                        let x = (joined_path(dir@, entry.0@), entry.1);
                        assert(entries_view(kept@) =~= entries_view(pre) + seq![x]);
                        match readdir_spec(dir@, outcomes@.subrange(i + 1, n as int)) {
                            Ok(rest) => {
                                assert((entries_view(pre) + (seq![x] + rest)) =~= (entries_view(
                                    pre,
                                ) + seq![x]) + rest);
                            },
                            Err(_) => {},
                        }
                    }
                }
            },
            Err(e) => {
                if e.code == LIBSSH2_ERROR_FILE {
                    proof {
                        assert(entries_view(kept@) + Seq::<(Seq<char>, FileStat)>::empty()
                            =~= entries_view(kept@));
                    }
                    return Ok(kept);
                } else {
                    return Err(Error::Ssh2(e.clone()));
                }
            },
        }
        i = i + 1;
    }
    proof {
        assert(outcomes@.subrange(n as int, n as int) =~= Seq::<
            Result<(String, FileStat), EngineError>,
        >::empty());
        assert(entries_view(kept@) + Seq::<(Seq<char>, FileStat)>::empty() =~= entries_view(
            kept@,
        ));
    }
    Ok(kept)
}

/// What a listing keeps of the entries themselves: the pseudo-entries
/// dropped, every other name joined to the queried directory, in order.
pub open spec fn kept_entries(dir: Seq<char>, entries: Seq<(String, FileStat)>) -> Seq<
    (Seq<char>, FileStat),
>
    decreases entries.len(),
{
    if entries.len() == 0 {
        Seq::empty()
    } else if is_pseudo_entry(entries[0].0@) {
        kept_entries(dir, entries.drop_first())
    } else {
        seq![(joined_path(dir, entries[0].0@), entries[0].1)] + kept_entries(
            dir,
            entries.drop_first(),
        )
    }
}

/// How many of the listed entries are pseudo-entries.
pub open spec fn pseudo_entry_count(entries: Seq<(String, FileStat)>) -> nat
    decreases entries.len(),
{
    if entries.len() == 0 {
        0
    } else {
        (if is_pseudo_entry(entries[0].0@) {
            1nat
        } else {
            0nat
        }) + pseudo_entry_count(entries.drop_first())
    }
}

/// The entry outcomes of a complete listing: everything the engine
/// handed back before it signalled that no entry is left.
pub open spec fn listed_entries(
    outcomes: Seq<Result<(String, FileStat), EngineError>>,
) -> Seq<(String, FileStat)> {
    outcomes.subrange(0, outcomes.len() - 1).map_values(
        (|o: Result<(String, FileStat), EngineError>| o->Ok_0),
    )
}

/// Law: over a listing that runs to its natural end — every call hands
/// back an entry until the no-entry-left code — the result is success
/// and holds exactly the non-pseudo entries, with paths joined to the
/// queried directory.
pub proof fn lemma_readdir_complete_listing(
    dir: Seq<char>,
    outcomes: Seq<Result<(String, FileStat), EngineError>>,
)
    requires
        outcomes.len() > 0,
        forall|j: int| 0 <= j < outcomes.len() - 1 ==> #[trigger] outcomes[j] is Ok,
        outcomes.last() is Err,
        outcomes.last()->Err_0.code == LIBSSH2_ERROR_FILE,
    ensures
        readdir_spec(dir, outcomes) == Ok::<_, Error>(kept_entries(dir, listed_entries(outcomes))),
    decreases outcomes.len(),
{
    let e = listed_entries(outcomes);
    if outcomes.len() == 1 {
        assert(e =~= Seq::<(String, FileStat)>::empty());
    } else {
        let rest = outcomes.drop_first();
        assert(rest.last() == outcomes.last());
        assert(forall|j: int| 0 <= j < rest.len() - 1 ==> #[trigger] rest[j] is Ok);
        lemma_readdir_complete_listing(dir, rest);
        let e_rest = listed_entries(rest);
        assert(outcomes[0] is Ok);
        assert(e[0] == outcomes[0]->Ok_0);
        assert(e.drop_first() =~= e_rest);
        assert(e.len() > 0);
    }
}

/// Law: a listing keeps every entry but the pseudo ones — its length is
/// the number of entries minus the number of pseudo-entries among them.
pub proof fn lemma_kept_entries_length(dir: Seq<char>, entries: Seq<(String, FileStat)>)
    ensures
        kept_entries(dir, entries).len() + pseudo_entry_count(entries) == entries.len(),
    decreases entries.len(),
{
    if entries.len() > 0 {
        lemma_kept_entries_length(dir, entries.drop_first());
    }
}

/// Law: a complete listing succeeds and returns exactly as many entries
/// as the engine handed back, less the pseudo-entries among them.
pub proof fn lemma_readdir_entry_count(
    dir: Seq<char>,
    outcomes: Seq<Result<(String, FileStat), EngineError>>,
)
    requires
        outcomes.len() > 0,
        forall|j: int| 0 <= j < outcomes.len() - 1 ==> #[trigger] outcomes[j] is Ok,
        outcomes.last() is Err,
        outcomes.last()->Err_0.code == LIBSSH2_ERROR_FILE,
    ensures
        readdir_spec(dir, outcomes) matches Ok(entries) && entries.len() + pseudo_entry_count(
            listed_entries(outcomes),
        ) == outcomes.len() - 1,
{
    lemma_readdir_complete_listing(dir, outcomes);
    lemma_kept_entries_length(dir, listed_entries(outcomes));
}

} // verus!

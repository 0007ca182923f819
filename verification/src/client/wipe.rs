//! Emergency purge of all local data: which files go, and what they are
//! overwritten with.

use vstd::prelude::*;

use crate::client::contacts::CONTACTS_FILE;
use crate::client::history::HISTORY_FILE;
use crate::crypto::primitives;
use crate::crypto::store::SESSIONS_FILE;
use crate::text;

verus! {

/// The name of the file that the identity is kept in.
pub const IDENTITY_FILE: &'static str = "identity.enc";

/// The name of the file that the server's onion address is written to.
pub const ONION_FILE: &'static str = "onion_address.txt";

/// What a file is overwritten with.
#[derive(Debug, Clone, Copy, PartialEq, Eq, Structural)]
pub enum Pass {
    Random,
    Zeros,
    Ones,
}

/// The passes over a file that is securely deleted: random data, zeros, ones.
/// An empty file needs none.
pub open spec fn delete_passes(len: nat) -> Seq<Pass> {
    if len > 0 {
        seq![Pass::Random, Pass::Zeros, Pass::Ones]
    } else {
        seq![]
    }
}

/// The passes over a file of a given length before it is deleted.
pub fn secure_delete(len: u64) -> (r: Vec<Pass>)
    ensures
        r@ == delete_passes(len as nat),
{
    let mut passes: Vec<Pass> = Vec::new();
    if len > 0 {
        passes.push(Pass::Random);
        passes.push(Pass::Zeros);
        passes.push(Pass::Ones);
    }
    assert(passes@ =~= delete_passes(len as nat));
    passes
}

/// The passes over the history file before it is deleted.
pub fn purge_passes() -> (r: Vec<Pass>)
    ensures
        r@ == seq![Pass::Random, Pass::Zeros],
{
    let mut passes: Vec<Pass> = Vec::new();
    passes.push(Pass::Random);
    passes.push(Pass::Zeros);
    assert(passes@ =~= seq![Pass::Random, Pass::Zeros]);
    passes
}

/// The bytes that a pass writes over a file of a given length.
pub fn pass_bytes(pass: Pass, len: usize) -> (r: Vec<u8>)
    ensures
        r@.len() == len,
        pass == Pass::Zeros ==> r@ == Seq::new(len as nat, |i: int| 0u8),
        pass == Pass::Ones ==> r@ == Seq::new(len as nat, |i: int| 0xffu8),
{
    match pass {
        Pass::Random => primitives::random_bytes(len),
        Pass::Zeros => {
            let mut data: Vec<u8> = Vec::new();
            data.resize(len, 0);
            assert(data@ =~= Seq::new(len as nat, |i: int| 0u8));
            data
        },
        Pass::Ones => {
            let mut data: Vec<u8> = Vec::new();
            data.resize(len, 0xff);
            assert(data@ =~= Seq::new(len as nat, |i: int| 0xffu8));
            data
        },
    }
}

/// The files and directories that are destroyed first, in order: the known
/// files, then the state of Tor.
pub open spec fn first_targets() -> Seq<Seq<char>> {
    seq![
        "identity.enc"@,
        "sessions.enc"@,
        "contacts.enc"@,
        "history.enc"@,
        "onion_address.txt"@,
        "tor_state"@,
        "tor_cache"@,
        "tor_client_state"@,
        "tor_client_cache"@,
    ]
}

fn push_path(paths: &mut Vec<String>, dir: &str, name: &str)
    ensures
        final(paths)@.map_values(|s: String| s@) == old(paths)@.map_values(|s: String| s@).push(
            text::path_in(dir@, name@),
        ),
{
    paths.push(text::join_path(dir, name));
    assert(paths@.map_values(|s: String| s@) =~= old(paths)@.map_values(|s: String| s@).push(
        text::path_in(dir@, name@),
    ));
}

/// What is destroyed first, where it exists. Whatever else is in the data
/// directory follows.
pub fn execute_panic(data_dir: &str) -> (r: Vec<String>)
    ensures
        r@.map_values(|s: String| s@) == first_targets().map_values(
            |name: Seq<char>| text::path_in(data_dir@, name),
        ),
{
    let mut paths: Vec<String> = Vec::new();
    assert(paths@.map_values(|s: String| s@) =~= seq![]);
    push_path(&mut paths, data_dir, "identity.enc");
    push_path(&mut paths, data_dir, "sessions.enc");
    push_path(&mut paths, data_dir, "contacts.enc");
    push_path(&mut paths, data_dir, "history.enc");
    push_path(&mut paths, data_dir, "onion_address.txt");
    push_path(&mut paths, data_dir, "tor_state");
    push_path(&mut paths, data_dir, "tor_cache");
    push_path(&mut paths, data_dir, "tor_client_state");
    push_path(&mut paths, data_dir, "tor_client_cache");
    assert(paths@.map_values(|s: String| s@) =~= first_targets().map_values(
        |name: Seq<char>| text::path_in(data_dir@, name),
    ));
    paths
}

/// Quick purge — just history (less destructive): the file to delete, if it is
/// there.
pub fn purge_history(data_dir: &str, present: bool) -> (r: Option<String>)
    ensures
        text::opt_text(r) == if present {
            Some(text::path_in(data_dir@, HISTORY_FILE@))
        } else {
            None
        },
{
    if present {
        Some(text::join_path(data_dir, HISTORY_FILE))
    } else {
        None
    }
}

/// Everything that the client keeps is among what is destroyed first.
pub proof fn law_panic_reaches_every_store()
    ensures
        first_targets().contains(IDENTITY_FILE@),
        first_targets().contains(SESSIONS_FILE@),
        first_targets().contains(CONTACTS_FILE@),
        first_targets().contains(HISTORY_FILE@),
        first_targets().contains(ONION_FILE@),
{
    let all = first_targets();
    assert(all[0] == IDENTITY_FILE@);
    assert(all[1] == SESSIONS_FILE@);
    assert(all[2] == CONTACTS_FILE@);
    assert(all[3] == HISTORY_FILE@);
    assert(all[4] == ONION_FILE@);
}

/// The last pass over a file leaves nothing of what it held.
pub proof fn law_delete_overwrites_three_times(len: nat)
    requires
        len > 0,
    ensures
        delete_passes(len).len() == 3,
        delete_passes(len).last() == Pass::Ones,
{
}

/// A file is overwritten with random data, then with zeros, then with ones; there is
/// nothing to overwrite in an empty one.
pub proof fn law_delete_overwrites_in_order(len: nat)
    ensures
        len > 0 ==> delete_passes(len) == seq![Pass::Random, Pass::Zeros, Pass::Ones],
        len == 0 ==> delete_passes(len).len() == 0,
{
}

/// What Tor keeps is destroyed too, on a client and on a server.
pub proof fn law_panic_reaches_tor()
    ensures
        first_targets().contains("tor_state"@),
        first_targets().contains("tor_cache"@),
        first_targets().contains("tor_client_state"@),
        first_targets().contains("tor_client_cache"@),
{
    let all = first_targets();
    assert(all[5] == "tor_state"@);
    assert(all[6] == "tor_cache"@);
    assert(all[7] == "tor_client_state"@);
    assert(all[8] == "tor_client_cache"@);
}

} // verus!

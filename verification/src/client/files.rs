//! Files that are sent in chunks.

use vstd::prelude::*;
use vstd::slice::*;

use crate::text;

verus! {

/// The length of a chunk: with its padding and its tag it fits into a frame.
pub const FILE_CHUNK: usize = 262_144;

/// The name of the directory that files are received into.
pub const RECEIVED_DIR: &'static str = "received";

/// How many chunks a file of a given length is sent in. An empty file has one.
pub open spec fn chunk_total(len: nat) -> nat {
    if len == 0 {
        1
    } else {
        ((len - 1) as nat / FILE_CHUNK as nat) + 1
    }
}

/// How many chunks a file of a given length is sent in.
pub fn chunk_count(len: usize) -> (r: usize)
    ensures
        r == chunk_total(len as nat),
        r > 0,
{
    if len == 0 {
        1
    } else {
        (len - 1) / FILE_CHUNK + 1
    }
}

/// Where a chunk ends.
pub open spec fn chunk_end(len: nat, i: int) -> int {
    if (i + 1) * FILE_CHUNK < len {
        (i + 1) * FILE_CHUNK
    } else {
        len as int
    }
}

/// A chunk of a file.
pub open spec fn chunk(data: Seq<u8>, i: int) -> Seq<u8> {
    data.subrange(i * FILE_CHUNK, chunk_end(data.len(), i))
}

/// A chunk of a file.
pub fn chunk_of(data: &[u8], i: usize) -> (r: &[u8])
    requires
        i < chunk_total(data@.len()),
    ensures
        r@ == chunk(data@, i as int),
        r@.len() <= FILE_CHUNK,
{
    let len: usize = data.len();
    assert(i * FILE_CHUNK <= len);
    let start: usize = i * FILE_CHUNK;
    let end: usize = if len - start > FILE_CHUNK {
        start + FILE_CHUNK
    } else {
        len
    };
    assert(end == chunk_end(data@.len(), i as int));
    slice_subrange(data, start, end)
}

/// Chunks in a row.
pub open spec fn joined(chunks: Seq<Seq<u8>>) -> Seq<u8>
    decreases chunks.len(),
{
    if chunks.len() == 0 {
        seq![]
    } else {
        joined(chunks.drop_last()) + chunks.last()
    }
}

/// The chunks of a file, in order.
pub open spec fn chunks_of(data: Seq<u8>) -> Seq<Seq<u8>> {
    Seq::new(chunk_total(data.len()), |i: int| chunk(data, i))
}

proof fn lemma_joined(data: Seq<u8>, n: nat)
    requires
        n <= chunk_total(data.len()),
    ensures
        joined(chunks_of(data).take(n as int)) == data.take(
            if n == 0 {
                0
            } else {
                chunk_end(data.len(), n - 1)
            },
        ),
    decreases n,
{
    let first = chunks_of(data).take(n as int);
    if n > 0 {
        lemma_joined(data, (n - 1) as nat);
        assert(first.drop_last() =~= chunks_of(data).take(n - 1));
        assert(first.last() == chunk(data, n - 1));
        let start = (n - 1) * FILE_CHUNK;
        assert(start <= data.len());
        if n > 1 {
            assert(chunk_end(data.len(), n - 2) == start);
        }
        assert(data.take(start) + chunk(data, n - 1) =~= data.take(chunk_end(data.len(), n - 1)));
    } else {
        assert(first =~= seq![]);
        assert(data.take(0) =~= seq![]);
    }
}

/// The chunks of a file make up the file, and none is longer than it may be.
pub proof fn law_chunks_make_up_the_file(data: Seq<u8>)
    ensures
        joined(chunks_of(data)) == data,
        forall|i: int|
            0 <= i < chunks_of(data).len() ==> (#[trigger] chunks_of(data)[i]).len() <= FILE_CHUNK,
{
    let n = chunk_total(data.len());
    lemma_joined(data, n);
    assert(chunks_of(data).take(n as int) =~= chunks_of(data));
    assert(chunk_end(data.len(), n - 1) == data.len());
    assert(data.take(data.len() as int) =~= data);
}

// ── Names ───────────────────────────────────────────────────

/// What follows the last `c`, or all of `s` where there is none.
pub open spec fn behind_last(s: Seq<char>, c: char) -> Seq<char> {
    s.skip(text::last_of(s, c) + 1)
}

/// The name of a file without the directories that lead to it. What names no
/// file gets a name.
pub open spec fn name_in(path: Seq<char>) -> Seq<char> {
    let name = behind_last(behind_last(path, '/'), '\\');
    if name.len() == 0 || name == "."@ || name == ".."@ {
        "file"@
    } else {
        name
    }
}

proof fn lemma_last_of_bound(s: Seq<char>, c: char)
    ensures
        -1 <= text::last_of(s, c) < s.len(),
        forall|j: int| text::last_of(s, c) < j < s.len() ==> #[trigger] s[j] != c,
    decreases s.len(),
{
    if s.len() > 0 && s.last() != c {
        lemma_last_of_bound(s.drop_last(), c);
        assert forall|j: int| text::last_of(s, c) < j < s.len() implies #[trigger] s[j] != c by {
            if j < s.len() - 1 {
                assert(s.drop_last()[j] != c);
            }
        }
    }
}

proof fn lemma_no_last(s: Seq<char>, c: char)
    requires
        forall|j: int| 0 <= j < s.len() ==> #[trigger] s[j] != c,
    ensures
        behind_last(s, c) == s,
{
    lemma_last_of_bound(s, c);
    if text::last_of(s, c) >= 0 {
        lemma_last_of_is_there(s, c);
    }
    assert(s.skip(0) =~= s);
}

proof fn lemma_last_of_is_there(s: Seq<char>, c: char)
    requires
        text::last_of(s, c) >= 0,
    ensures
        text::last_of(s, c) < s.len(),
        s[text::last_of(s, c)] == c,
    decreases s.len(),
{
    if s.last() != c {
        lemma_last_of_is_there(s.drop_last(), c);
    }
}

/// The name of a file leads to no other directory, and is its own name.
pub proof fn law_name_is_no_path(path: Seq<char>)
    ensures
        name_in(path).len() > 0,
        !name_in(path).contains('/'),
        !name_in(path).contains('\\'),
        name_in(name_in(path)) == name_in(path),
{
    reveal_strlit("file");
    let inner = behind_last(path, '/');
    lemma_last_of_bound(path, '/');
    assert forall|j: int| 0 <= j < inner.len() implies #[trigger] inner[j] != '/' by {
        assert(path[j + text::last_of(path, '/') + 1] != '/');
    }
    let name = behind_last(inner, '\\');
    lemma_last_of_bound(inner, '\\');
    let at = text::last_of(inner, '\\') + 1;
    assert forall|j: int| 0 <= j < name.len() implies #[trigger] name[j] != '\\' && name[j]
        != '/' by {
        assert(inner[j + at] != '\\');
        assert(inner[j + at] != '/');
    }
    let result = name_in(path);
    assert forall|j: int| 0 <= j < result.len() implies #[trigger] result[j] != '\\' && result[j]
        != '/' by {
        if result == name {
            assert(name[j] != '\\');
        }
    }
    lemma_no_last(result, '/');
    lemma_no_last(result, '\\');
    reveal_strlit(".");
    reveal_strlit("..");
}

fn after_last(s: &str, c: char) -> (r: String)
    ensures
        r@ == behind_last(s@, c),
{
    match text::split_last(s, c) {
        Some((_, tail)) => tail,
        None => {
            assert(s@.skip(0) =~= s@);
            s.to_owned()
        },
    }
}

/// The name of a file without the directories that lead to it.
pub fn file_name(path: &str) -> (r: String)
    ensures
        r@ == name_in(path@),
{
    let name = after_last(after_last(path, '/').as_str(), '\\');
    if name.as_str().is_empty() || text::same_text(name.as_str(), ".") || text::same_text(
        name.as_str(),
        "..",
    ) {
        "file".to_owned()
    } else {
        name
    }
}

/// A chunk is the part of the file that its number stands for: all chunks but the
/// last are full, and the last holds what is left. An empty file is one empty
/// chunk.
pub proof fn law_chunk_is_its_part_of_the_file(data: Seq<u8>, i: int)
    requires
        0 <= i < chunk_total(data.len()),
    ensures
        i + 1 < chunk_total(data.len()) ==> chunk(data, i) == data.subrange(
            i * FILE_CHUNK,
            (i + 1) * FILE_CHUNK,
        ),
        i + 1 == chunk_total(data.len()) ==> chunk(data, i) == data.skip(i * FILE_CHUNK),
        data.len() > 0 ==> chunk(data, i).len() > 0,
        data.len() == 0 ==> chunk_total(data.len()) == 1,
        (chunk_total(data.len()) - 1) * FILE_CHUNK <= data.len() <= chunk_total(data.len())
            * FILE_CHUNK,
{
    assert(i * FILE_CHUNK <= data.len());
    if i + 1 == chunk_total(data.len()) {
        assert(chunk(data, i) =~= data.skip(i * FILE_CHUNK));
    }
}

/// Chunks are joined in their order, one behind the other.
pub proof fn law_joining_keeps_the_order(chunks: Seq<Seq<u8>>, more: Seq<u8>)
    ensures
        joined(chunks.push(more)) == joined(chunks) + more,
        joined(seq![]).len() == 0,
{
    assert(chunks.push(more).drop_last() =~= chunks);
}

/// The name of a file is the end of its path: what follows the last slash, of
/// either kind. Only what would name no file gets another name.
pub proof fn law_name_is_the_end_of_the_path(dir: Seq<char>, name: Seq<char>)
    requires
        name.len() > 0,
        name != "."@,
        name != ".."@,
        !name.contains('/'),
        !name.contains('\\'),
    ensures
        name_in(name) == name,
        name_in(dir + seq!['/'] + name) == name,
        name_in("."@) == "file"@ && name_in(".."@) == "file"@ && name_in(seq![]) == "file"@,
{
    let path = dir + seq!['/'] + name;
    let at = dir.len() as int;
    assert forall|j: int| 0 <= j < name.len() implies #[trigger] name[j] != '/' && name[j]
        != '\\' by {
        assert(name.contains(name[j]));
    }
    lemma_last_of_bound(path, '/');
    if text::last_of(path, '/') >= 0 {
        lemma_last_of_is_there(path, '/');
    }
    let found = text::last_of(path, '/');
    assert(path[at] == '/');
    if found > at {
        assert(path[found] == name[found - at - 1]);
    }
    assert(found == at);
    assert(path.skip(at + 1) =~= name);
    lemma_no_last(name, '/');
    lemma_no_last(name, '\\');
    reveal_strlit(".");
    reveal_strlit("..");
    reveal_strlit("file");
    assert("."@[0] == '.' && ".."@[0] == '.' && ".."@[1] == '.');
    lemma_no_last("."@, '/');
    lemma_no_last("."@, '\\');
    lemma_no_last(".."@, '/');
    lemma_no_last(".."@, '\\');
    let none = Seq::<char>::empty();
    lemma_no_last(none, '/');
    lemma_no_last(none, '\\');
}

} // verus!

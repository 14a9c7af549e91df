//! The checksum manifest of a release: plain text, one line for each
//! published file, `<digest> <file name>`.

use crate::digest::{
    digest_of_chars, hex_of, lemma_parse_writes_back, parse_digest, DigestError, Sha256Hash,
};
use crate::text::{chars_of, find, find_from, lemma_find, lemma_find_unique, slice_equals};
use vstd::prelude::*;

verus! {

/// Why a manifest cannot be searched.
#[derive(Clone, Copy, Debug, PartialEq, Eq, Structural)]
pub enum ManifestError {
    /// A line before the wanted one holds no space.
    Line,
    /// The line of the wanted file does not start with a digest.
    Digest,
}

/// The two halves of a line around its first space: the digest text and the
/// file name. `None` where the line holds no space.
pub open spec fn entry(line: Seq<char>) -> Option<(Seq<char>, Seq<char>)> {
    let i = find(line, ' ');
    if 0 <= i < line.len() {
        Some((line.subrange(0, i), line.subrange(i + 1, line.len() as int)))
    } else {
        None
    }
}

/// What a search of the manifest `text` for the file `name` gives. The
/// lines are taken in order, each ending at a line feed or at the end of
/// the text. The first line whose file name is exactly `name` decides: its
/// digest, or an error where that is no digest. A line without a space met
/// on the way is an error; a text without a line for `name` gives `None`.
pub open spec fn lookup(text: Seq<char>, name: Seq<char>) -> Result<Option<Seq<u8>>, ManifestError>
    decreases text.len(),
{
    if text.len() == 0 {
        Ok(None)
    } else {
        let end = find(text, '\n');
        if 0 <= end < text.len() {
            lookup_line(
                text.subrange(0, end),
                name,
                lookup(text.subrange(end + 1, text.len() as int), name),
            )
        } else {
            lookup_line(text, name, Ok(None))
        }
    }
}

/// What one line contributes to a search: an error where it holds no
/// space, its digest where it names the file, and otherwise what the lines
/// after it give.
pub open spec fn lookup_line(
    line: Seq<char>,
    name: Seq<char>,
    later: Result<Option<Seq<u8>>, ManifestError>,
) -> Result<Option<Seq<u8>>, ManifestError> {
    match entry(line) {
        None => Err(ManifestError::Line),
        Some((digest, file)) => if file == name {
            match parse_digest(digest) {
                Ok(d) => Ok(Some(d)),
                Err(_) => Err(ManifestError::Digest),
            }
        } else {
            later
        },
    }
}

/// Whether the result of a search in exec form, `r`, is the result `m` in
/// the model.
pub open spec fn lookup_is(
    r: Result<Option<Sha256Hash>, ManifestError>,
    m: Result<Option<Seq<u8>>, ManifestError>,
) -> bool {
    match r {
        Ok(Some(d)) => m == Ok::<Option<Seq<u8>>, ManifestError>(Some(d@)),
        Ok(None) => m == Ok::<Option<Seq<u8>>, ManifestError>(None),
        Err(e) => m == Err::<Option<Seq<u8>>, ManifestError>(e),
    }
}

/// Searches the manifest `manifest` for the digest of the file `name`.
pub fn find_checksum(manifest: &str, name: &str) -> (r: Result<Option<Sha256Hash>, ManifestError>)
    ensures
        lookup_is(r, lookup(manifest@, name@)),
{
    let chars = chars_of(manifest);
    let wanted = chars_of(name);
    let n = chars.len();
    let mut pos: usize = 0;
    assert(manifest@.subrange(0, n as int) == manifest@);
    while pos < n
        invariant
            pos <= n == chars.len(),
            chars@ == manifest@,
            wanted@ == name@,
            lookup(manifest@, name@) == lookup(chars@.subrange(pos as int, n as int), name@),
        decreases n - pos,
    {
        let ghost text = chars@.subrange(pos as int, n as int);
        let end = find_from(&chars, pos, n, '\n');
        let ghost line = chars@.subrange(pos as int, end as int);
        proof {
            lemma_find(text, '\n');
            if end < n {
                assert(text.subrange(0, end - pos) == line);
                assert(text.subrange(end - pos + 1, text.len() as int) == chars@.subrange(
                    end + 1,
                    n as int,
                ));
            } else {
                assert(text == line);
                assert(chars@.subrange(n as int, n as int).len() == 0);
            }
        }
        let space = find_from(&chars, pos, end, ' ');
        proof {
            lemma_find(line, ' ');
        }
        if space == end {
            return Err(ManifestError::Line);
        }
        proof {
            assert(line.subrange(0, space - pos) == chars@.subrange(pos as int, space as int));
            assert(line.subrange(space - pos + 1, line.len() as int) == chars@.subrange(
                space + 1,
                end as int,
            ));
        }
        if slice_equals(&chars, space + 1, end, &wanted) {
            return match digest_of_chars(&chars, pos, space) {
                Ok(d) => Ok(Some(d)),
                Err(_) => Err(ManifestError::Digest),
            };
        }
        pos = if end < n {
            end + 1
        } else {
            n
        };
    }
    Ok(None)
}

/// A manifest whose first line names the wanted file gives the digest that
/// the line starts with, whatever follows.
pub proof fn lemma_first_line_decides(digest: Seq<char>, name: Seq<char>, rest: Seq<char>)
    requires
        find(digest, ' ') == digest.len(),
        find(digest, '\n') == digest.len(),
        find(name, '\n') == name.len(),
        parse_digest(digest) is Ok,
    ensures
        lookup(digest + seq![' '] + name + seq!['\n'] + rest, name) == Ok::<
            Option<Seq<u8>>,
            ManifestError,
        >(Some(parse_digest(digest)->Ok_0)),
{
    let text = digest + seq![' '] + name + seq!['\n'] + rest;
    let line = digest + seq![' '] + name;
    let end = line.len() as int;
    let split = digest.len() as int;
    lemma_find(digest, ' ');
    lemma_find(digest, '\n');
    lemma_find(name, '\n');
    assert forall|i: int| 0 <= i < end implies text[i] != '\n' by {
        if i < split {
            assert(text[i] == digest[i]);
        } else if i > split {
            assert(text[i] == name[i - split - 1]);
        }
    }
    assert(text[end] == '\n');
    lemma_find_unique(text, '\n', end);
    assert(text.subrange(0, end) =~= line);
    assert forall|i: int| 0 <= i < split implies line[i] != ' ' by {
        assert(line[i] == digest[i]);
    }
    assert(line[split] == ' ');
    lemma_find_unique(line, ' ', split);
    assert(line.subrange(0, split) =~= digest);
    assert(line.subrange(split + 1, line.len() as int) =~= name);
}

/// Whether `line` is one of the lines of `text`: it holds no line feed,
/// starts at the start of the text or behind a line feed, and ends at a
/// line feed or at the end of the text.
pub open spec fn is_line(text: Seq<char>, line: Seq<char>) -> bool {
    exists|i: int|
        #![trigger text.subrange(i, i + line.len())]
        {
            &&& 0 <= i && i + line.len() <= text.len()
            &&& text.subrange(i, i + line.len()) == line
            &&& i == 0 || text[i - 1] == '\n'
            &&& i + line.len() == text.len() || text[i + line.len()] == '\n'
            &&& forall|k: int| 0 <= k < line.len() ==> line[k] != '\n'
        }
}

/// A digest is found only where the manifest lists it: the text then holds
/// the line made of the digest in hexadecimal, a space, and the very name
/// that was asked for.
pub proof fn lemma_found_is_listed(text: Seq<char>, name: Seq<char>)
    requires
        lookup(text, name) is Ok,
        lookup(text, name)->Ok_0 is Some,
    ensures
        is_line(text, hex_of(lookup(text, name)->Ok_0->Some_0) + seq![' '] + name),
    decreases text.len(),
{
    let digest = lookup(text, name)->Ok_0->Some_0;
    let wanted = hex_of(digest) + seq![' '] + name;
    let end = find(text, '\n');
    lemma_find(text, '\n');
    let line = text.subrange(0, end);
    let later = if end < text.len() {
        lookup(text.subrange(end + 1, text.len() as int), name)
    } else {
        Ok(None)
    };
    assert(text.len() > 0);
    assert(end == text.len() ==> line =~= text);
    assert(lookup(text, name) == lookup_line(line, name, later));
    let split = find(line, ' ');
    lemma_find(line, ' ');
    assert(entry(line) is Some);
    if entry(line)->Some_0.1 == name {
        let written = line.subrange(0, split);
        assert(parse_digest(written) == Ok::<Seq<u8>, DigestError>(digest));
        lemma_parse_writes_back(written);
        assert(line =~= wanted);
        assert(text.subrange(0int, 0int + wanted.len()) =~= wanted);
        assert forall|k: int| 0 <= k < wanted.len() implies wanted[k] != '\n' by {
            assert(wanted[k] == text[k]);
        }
        assert(is_line(text, wanted));
    } else {
        assert(end < text.len());
        let rest = text.subrange(end + 1, text.len() as int);
        lemma_found_is_listed(rest, name);
        let i = choose|i: int|
            #![trigger rest.subrange(i, i + wanted.len())]
            {
                &&& 0 <= i && i + wanted.len() <= rest.len()
                &&& rest.subrange(i, i + wanted.len()) == wanted
                &&& i == 0 || rest[i - 1] == '\n'
                &&& i + wanted.len() == rest.len() || rest[i + wanted.len()] == '\n'
                &&& forall|k: int| 0 <= k < wanted.len() ==> wanted[k] != '\n'
            };
        let at = end + 1 + i;
        assert(text.subrange(at, at + wanted.len()) =~= rest.subrange(i, i + wanted.len()));
        if i > 0 {
            assert(text[at - 1] == rest[i - 1]);
        }
        if i + wanted.len() < rest.len() {
            assert(text[at + wanted.len()] == rest[i + wanted.len()]);
        }
        assert(is_line(text, wanted));
    }
}

} // verus!

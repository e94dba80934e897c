//! Discovery of produced binary modules in the compiler's structured output.
//!
//! The compiler's captured standard output is a stream of newline-delimited
//! records. This module splits the stream into lines, decodes each line, and
//! keeps, in input order, the executable path of every artifact record whose
//! path carries the binary-module extension, normalized to be relative to the
//! working directory when possible. A line that fails to decode is a fatal
//! parse error for the whole stream: no partial list is returned.

use vstd::prelude::*;
use crate::events::{BuildEventModel, decoded_record, decode_record};

verus! {

/// The stream is split on this byte into lines.
pub const LINE_SEP: u8 = 10;

/// Splitting a byte stream into lines: `cur` holds the bytes of the line
/// read so far. A trailing fragment without a final separator still counts
/// as a line; a final separator does not open an empty last line.
pub open spec fn line_split(b: Seq<u8>, cur: Seq<u8>) -> Seq<Seq<u8>>
    decreases b.len(),
{
    if b.len() == 0 {
        if cur.len() == 0 {
            Seq::empty()
        } else {
            seq![cur]
        }
    } else if b[0] == LINE_SEP {
        seq![cur] + line_split(b.drop_first(), Seq::empty())
    } else {
        line_split(b.drop_first(), cur.push(b[0]))
    }
}

/// The lines of a byte stream.
pub open spec fn lines_of(b: Seq<u8>) -> Seq<Seq<u8>> {
    line_split(b, Seq::empty())
}

/// Splits the captured compiler output into lines.
pub fn split_lines(bytes: &[u8]) -> (r: Vec<Vec<u8>>)
    ensures
        r.deep_view() == lines_of(bytes@),
{
    let mut lines: Vec<Vec<u8>> = Vec::new();
    let mut cur: Vec<u8> = Vec::new();
    let mut i: usize = 0;
    proof {
        assert(bytes@.skip(0) =~= bytes@);
        assert(lines.deep_view() =~~= Seq::<Seq<u8>>::empty());
        assert(Seq::<Seq<u8>>::empty() + line_split(bytes@, Seq::empty()) =~= lines_of(bytes@));
    }
    while i < bytes.len()
        invariant
            0 <= i <= bytes@.len(),
            lines_of(bytes@) == lines.deep_view() + line_split(bytes@.skip(i as int), cur@),
        decreases bytes@.len() - i,
    {
        let b = bytes[i];
        proof {
            assert(bytes@.skip(i as int).len() > 0);
            assert(bytes@.skip(i as int)[0] == b);
            assert(bytes@.skip(i as int).drop_first() =~= bytes@.skip(i + 1));
        }
        if b == LINE_SEP {
            let ghost old_lines = lines.deep_view();
            let ghost old_cur = cur@;
            let finished = cur;
            cur = Vec::new();
            lines.push(finished);
            proof {
                assert(lines.deep_view() =~~= old_lines.push(old_cur));
                assert(line_split(bytes@.skip(i as int), old_cur) == seq![old_cur] + line_split(
                    bytes@.skip(i + 1),
                    Seq::empty(),
                ));
                assert(old_lines + (seq![old_cur] + line_split(bytes@.skip(i + 1), Seq::empty()))
                    =~= old_lines.push(old_cur) + line_split(bytes@.skip(i + 1), Seq::empty()));
            }
        } else {
            let ghost old_cur = cur@;
            cur.push(b);
            proof {
                assert(cur@ =~= old_cur.push(b));
                assert(line_split(bytes@.skip(i as int), old_cur) == line_split(
                    bytes@.skip(i + 1),
                    old_cur.push(b),
                ));
            }
        }
        i = i + 1;
    }
    proof {
        assert(bytes@.skip(i as int) =~= Seq::<u8>::empty());
    }
    if cur.len() > 0 {
        let ghost old_lines = lines.deep_view();
        let ghost last = cur@;
        lines.push(cur);
        proof {
            assert(lines.deep_view() =~~= old_lines.push(last));
            assert(old_lines + seq![last] =~= old_lines.push(last));
        }
    } else {
        proof {
            assert(lines.deep_view() + Seq::<Seq<u8>>::empty() =~= lines.deep_view());
        }
    }
    lines
}

/// The position of the last occurrence of `c` in `p`, if any.
pub open spec fn last_sep(p: Seq<char>, c: char) -> Option<int>
    decreases p.len(),
{
    if p.len() == 0 {
        None
    } else if p.last() == c {
        Some(p.len() - 1)
    } else {
        last_sep(p.drop_last(), c)
    }
}

/// `last_sep` names the last occurrence: the character stands there, and none
/// of the later positions holds it.
pub proof fn lemma_last_sep(p: Seq<char>, c: char)
    ensures
        match last_sep(p, c) {
            Some(i) => 0 <= i < p.len() && p[i] == c && forall|j: int|
                i < j < p.len() ==> p[j] != c,
            None => forall|j: int| 0 <= j < p.len() ==> p[j] != c,
        },
    decreases p.len(),
{
    if p.len() > 0 && p.last() != c {
        lemma_last_sep(p.drop_last(), c);
        assert(forall|j: int| 0 <= j < p.len() - 1 ==> p.drop_last()[j] == p[j]);
    }
}

/// The extension that marks a binary module.
pub open spec fn module_ext() -> Seq<char> {
    seq!['w', 'a', 's', 'm']
}

/// The extension of a path: the part of its file name after the last dot,
/// absent when the file name holds no dot or starts with its only dot.
pub open spec fn extension_of(p: Seq<char>) -> Option<Seq<char>> {
    let name_start: int = match last_sep(p, '/') {
        Some(i) => i + 1,
        None => 0,
    };
    match last_sep(p, '.') {
        Some(d) => if d > name_start {
            Some(p.skip(d + 1))
        } else {
            None
        },
        None => None,
    }
}

/// Whether a path names a binary module.
pub open spec fn is_module_path(p: Seq<char>) -> bool {
    extension_of(p) == Some(module_ext())
}

/// Decides whether a path carries the binary-module extension.
pub fn has_module_extension(p: &str) -> (b: bool)
    ensures
        b == is_module_path(p@),
{
    let n = p.unicode_len();
    let mut last_slash: Option<usize> = None;
    let mut last_dot: Option<usize> = None;
    let mut i: usize = 0;
    while i < n
        invariant
            n == p@.len(),
            0 <= i <= n,
            match last_slash {
                Some(k) => k < i && p@[k as int] == '/' && forall|j: int|
                    k < j < i ==> p@[j] != '/',
                None => forall|j: int| 0 <= j < i ==> p@[j] != '/',
            },
            match last_dot {
                Some(k) => k < i && p@[k as int] == '.' && forall|j: int|
                    k < j < i ==> p@[j] != '.',
                None => forall|j: int| 0 <= j < i ==> p@[j] != '.',
            },
        decreases n - i,
    {
        let c = p.get_char(i);
        if c == '/' {
            last_slash = Some(i);
        } else if c == '.' {
            last_dot = Some(i);
        }
        i = i + 1;
    }
    proof {
        lemma_last_sep(p@, '/');
        lemma_last_sep(p@, '.');
        assert(match last_slash {
            Some(k) => last_sep(p@, '/') == Some(k as int),
            None => last_sep(p@, '/') is None,
        });
        assert(match last_dot {
            Some(k) => last_sep(p@, '.') == Some(k as int),
            None => last_sep(p@, '.') is None,
        });
    }
    let name_start: usize = match last_slash {
        Some(k) => k + 1,
        None => 0,
    };
    match last_dot {
        Some(d) => {
            if d > name_start && n - d - 1 == 4 {
                let ok = p.get_char(d + 1) == 'w' && p.get_char(d + 2) == 'a' && p.get_char(
                    d + 3,
                ) == 's' && p.get_char(d + 4) == 'm';
                proof {
                    if ok {
                        assert(p@.skip(d + 1) =~= module_ext());
                    } else {
                        assert(p@.skip(d + 1) != module_ext()) by {
                            if p@.skip(d + 1) == module_ext() {
                                assert(p@[d + 1] == module_ext()[0]);
                                assert(p@[d + 2] == module_ext()[1]);
                                assert(p@[d + 3] == module_ext()[2]);
                                assert(p@[d + 4] == module_ext()[3]);
                            }
                        }
                    }
                }
                ok
            } else {
                proof {
                    if d > name_start {
                        assert(extension_of(p@) == Some(p@.skip(d + 1)));
                        assert(p@.skip(d + 1).len() != 4);
                    }
                }
                false
            }
        },
        None => false,
    }
}

/// A path normalized to the working directory: when the path lies under the
/// working directory, the part below it; otherwise the path unchanged.
pub open spec fn normalized(p: Seq<char>, cwd: Seq<char>) -> Seq<char> {
    if cwd.len() > 0 && (cwd + seq!['/']).is_prefix_of(p) {
        p.skip(cwd.len() as int + 1)
    } else {
        p
    }
}

/// Normalizes a produced path against the working directory.
pub fn normalize_path(p: String, cwd: &str) -> (r: String)
    ensures
        r@ == normalized(p@, cwd@),
{
    let n = cwd.unicode_len();
    let pn = p.as_str().unicode_len();
    if n == 0 || pn <= n {
        proof {
            if cwd@.len() > 0 {
                assert((cwd@ + seq!['/']).len() == cwd@.len() + 1);
                assert(!(cwd@ + seq!['/']).is_prefix_of(p@));
            }
        }
        return p;
    }
    let mut i: usize = 0;
    let mut matches_prefix = true;
    while i < n
        invariant
            n == cwd@.len(),
            pn == p@.len(),
            pn >= n + 1,
            0 <= i <= n,
            matches_prefix == forall|j: int| 0 <= j < i ==> p@[j] == cwd@[j],
        decreases n - i,
    {
        if p.as_str().get_char(i) != cwd.get_char(i) {
            matches_prefix = false;
        }
        i = i + 1;
    }
    if matches_prefix && p.as_str().get_char(n) == '/' {
        proof {
            assert((cwd@ + seq!['/']).is_prefix_of(p@)) by {
                assert(forall|j: int|
                    0 <= j < cwd@.len() ==> (cwd@ + seq!['/'])[j] == p@[j]);
                assert((cwd@ + seq!['/'])[cwd@.len() as int] == '/');
                assert((cwd@ + seq!['/']) =~= p@.take(cwd@.len() as int + 1));
            }
        }
        let r = p.as_str().substring_char(n + 1, pn).to_owned();
        proof {
            assert(r@ =~= p@.skip(n + 1));
        }
        r
    } else {
        proof {
            if cwd@.len() > 0 && (cwd@ + seq!['/']).is_prefix_of(p@) {
                assert(forall|j: int|
                    0 <= j < cwd@.len() + 1 ==> (cwd@ + seq!['/'])[j] == p@[j]);
                assert(p@[cwd@.len() as int] == '/');
                assert(forall|j: int| 0 <= j < cwd@.len() ==> p@[j] == cwd@[j]);
            }
        }
        p
    }
}

/// The module paths announced by a record sequence, in record order,
/// normalized against the working directory.
pub open spec fn artifact_paths(records: Seq<BuildEventModel>, cwd: Seq<char>) -> Seq<Seq<char>>
    decreases records.len(),
{
    if records.len() == 0 {
        Seq::empty()
    } else {
        let rest = artifact_paths(records.drop_last(), cwd);
        match records.last() {
            BuildEventModel::CompilerArtifact { executable: Some(p) } => if is_module_path(p) {
                rest.push(normalized(p, cwd))
            } else {
                rest
            },
            _ => rest,
        }
    }
}

/// Whether every line of the stream decodes as a well-formed record.
pub open spec fn records_well_formed(lines: Seq<Seq<u8>>) -> bool {
    forall|i: int| 0 <= i < lines.len() ==> decoded_record(lines[i]) is Some
}

/// The records of a well-formed stream, line by line.
pub open spec fn decoded_records(lines: Seq<Seq<u8>>) -> Seq<BuildEventModel> {
    lines.map_values(
        |l: Seq<u8>|
            match decoded_record(l) {
                Some(ev) => ev,
                None => BuildEventModel::Other,
            },
    )
}

/// The module paths of a well-formed compiler output stream.
pub open spec fn parsed_modules(output: Seq<u8>, cwd: Seq<char>) -> Seq<Seq<char>> {
    artifact_paths(decoded_records(lines_of(output)), cwd)
}

/// The index of the first line of the stream that fails to decode, when one
/// does.
pub open spec fn first_malformed(lines: Seq<Seq<u8>>) -> int
    decreases lines.len(),
{
    if lines.len() == 0 {
        0
    } else if decoded_record(lines[0]) is None {
        0
    } else {
        1 + first_malformed(lines.drop_first())
    }
}

/// On a stream with a malformed line, `first_malformed` names the first one:
/// that line fails to decode and every earlier line decodes.
pub proof fn lemma_first_malformed(lines: Seq<Seq<u8>>)
    ensures
        !records_well_formed(lines) ==> {
            let i = first_malformed(lines);
            &&& 0 <= i < lines.len()
            &&& decoded_record(lines[i]) is None
            &&& forall|j: int| 0 <= j < i ==> decoded_record(lines[j]) is Some
        },
    decreases lines.len(),
{
    if lines.len() > 0 && decoded_record(lines[0]) is Some {
        lemma_first_malformed(lines.drop_first());
        if !records_well_formed(lines) {
            assert(!records_well_formed(lines.drop_first())) by {
                let bad = choose|i: int|
                    0 <= i < lines.len() && !(decoded_record(lines[i]) is Some);
                assert(bad >= 1);
                assert(lines.drop_first()[bad - 1] == lines[bad]);
            }
            let i = first_malformed(lines);
            assert(i == 1 + first_malformed(lines.drop_first()));
            assert(decoded_record(lines.drop_first()[i - 1]) is None);
            assert(lines.drop_first()[i - 1] == lines[i]);
            assert(forall|j: int|
                1 <= j < i ==> decoded_record(#[trigger] lines[j]) is Some) by {
                assert(forall|j: int|
                    0 <= j < i - 1 ==> decoded_record(
                        #[trigger] lines.drop_first()[j],
                    ) is Some);
                assert(forall|j: int|
                    1 <= j < i ==> lines[j] == lines.drop_first()[j - 1]);
            }
        }
    }
}

/// A malformed record in the compiler output: `line` is the index of the
/// first line of the stream that fails to decode.
#[derive(Debug)]
pub struct ParseError {
    pub line: usize,
}

/// Extracts the produced binary-module paths from the captured compiler
/// output.
///
/// Succeeds if and only if every line of the stream decodes as a well-formed
/// record; the result then holds exactly the executable paths of the
/// module-artifact records, in input order, each normalized against `cwd`.
/// The first malformed line aborts the whole parse with its index: no
/// partial list is returned.
pub fn parse_executables(output: &[u8], cwd: &str) -> (r: Result<Vec<String>, ParseError>)
    ensures
        r is Ok <==> records_well_formed(lines_of(output@)),
        r matches Ok(v) ==> v.deep_view() == parsed_modules(output@, cwd@),
        r matches Err(e) ==> {
            &&& e.line < lines_of(output@).len()
            &&& decoded_record(lines_of(output@)[e.line as int]) is None
            &&& forall|j: int|
                0 <= j < e.line ==> decoded_record(lines_of(output@)[j]) is Some
        },
{
    let lines = split_lines(output);
    let ghost all_lines = lines_of(output@);
    let mut modules: Vec<String> = Vec::new();
    let mut i: usize = 0;
    while i < lines.len()
        invariant
            lines.deep_view() == all_lines,
            all_lines == lines_of(output@),
            0 <= i <= lines@.len(),
            forall|j: int| 0 <= j < i ==> decoded_record(all_lines[j]) is Some,
            modules.deep_view() == artifact_paths(decoded_records(all_lines.take(i as int)), cwd@),
        decreases lines@.len() - i,
    {
        proof {
            assert(lines@[i as int]@ == all_lines[i as int]);
        }
        let ghost prefix = decoded_records(all_lines.take(i as int));
        let ghost next_prefix = decoded_records(all_lines.take(i + 1));
        proof {
            assert(next_prefix.drop_last() =~= prefix);
        }
        match decode_record(lines[i].as_slice()) {
            None => {
                return Err(ParseError { line: i });
            },
            Some(ev) => {
                proof {
                    assert(next_prefix.last() == ev@);
                }
                match ev {
                    crate::events::BuildEvent::CompilerArtifact { executable: Some(p) } => {
                        if has_module_extension(p.as_str()) {
                            let ghost old_mods = modules.deep_view();
                            let norm = normalize_path(p, cwd);
                            modules.push(norm);
                            proof {
                                assert(modules.deep_view() =~= old_mods.push(
                                    normalized(ev@->CompilerArtifact_executable->0, cwd@),
                                ));
                            }
                        }
                    },
                    _ => {},
                }
            },
        }
        i = i + 1;
    }
    proof {
        assert(all_lines.take(i as int) =~= all_lines);
    }
    Ok(modules)
}

} // verus!

//! Splitting a command line into its whitespace-separated tokens.

use vstd::prelude::*;

verus! {

/// Whether `c` is white space in the Unicode sense (the `White_Space`
/// property, as `char::is_whitespace` has it).
pub open spec fn is_space(c: char) -> bool {
    let v = c as u32;
    (0x09 <= v && v <= 0x0D) || v == 0x20 || v == 0x85 || v == 0xA0 || v == 0x1680 || (0x2000
        <= v && v <= 0x200A) || v == 0x2028 || v == 0x2029 || v == 0x202F || v == 0x205F || v
        == 0x3000
}

/// The tokens of `s`, given that the token being read so far is `current`.
pub open spec fn split_from(s: Seq<char>, current: Seq<char>) -> Seq<Seq<char>>
    decreases s.len(),
{
    let done = if current.len() > 0 {
        seq![current]
    } else {
        seq![]
    };
    if s.len() == 0 {
        done
    } else if is_space(s[0]) {
        done + split_from(s.drop_first(), seq![])
    } else {
        split_from(s.drop_first(), current.push(s[0]))
    }
}

/// The tokens of `s`: its maximal runs of characters that are not white
/// space, in order.
pub open spec fn split_spaces(s: Seq<char>) -> Seq<Seq<char>> {
    split_from(s, seq![])
}

/// Tokens seen as character sequences.
pub open spec fn words(tokens: Seq<String>) -> Seq<Seq<char>> {
    tokens.map_values(|t: String| t@)
}

/// Tells white space from other characters.
pub fn is_space_char(c: char) -> (r: bool)
    ensures
        r == is_space(c),
{
    let v = c as u32;
    (0x09 <= v && v <= 0x0D) || v == 0x20 || v == 0x85 || v == 0xA0 || v == 0x1680 || (0x2000
        <= v && v <= 0x200A) || v == 0x2028 || v == 0x2029 || v == 0x202F || v == 0x205F || v
        == 0x3000
}

/// Splits `line` on white space; runs of white space count as one separator
/// and no token is empty.
pub fn tokenize(line: &str) -> (tokens: Vec<String>)
    ensures
        words(tokens@) == split_spaces(line@),
{
    let n = line.unicode_len();
    let mut tokens: Vec<String> = Vec::new();
    let mut start: usize = 0;
    let mut i: usize = 0;
    proof {
        assert(line@.skip(0) =~= line@);
        assert(line@.subrange(0, 0) =~= seq![]);
        assert(words(tokens@) + split_spaces(line@) =~= split_spaces(line@));
    }
    while i < n
        invariant
            n == line@.len(),
            start <= i <= n,
            words(tokens@) + split_from(
                line@.skip(i as int),
                line@.subrange(start as int, i as int),
            ) == split_spaces(line@),
        decreases n - i,
    {
        let c = line.get_char(i);
        let ghost rest = line@.skip(i as int);
        let ghost cur = line@.subrange(start as int, i as int);
        proof {
            assert(rest[0] == c);
            assert(rest.drop_first() =~= line@.skip(i + 1));
        }
        if is_space_char(c) {
            if start < i {
                let word = line.substring_char(start, i);
                let ghost before = words(tokens@);
                tokens.push(word.to_owned());
                proof {
                    assert(words(tokens@) =~= before.push(cur));
                    assert(split_from(rest, cur) == seq![cur] + split_from(
                        line@.skip(i + 1),
                        seq![],
                    ));
                    assert(before + (seq![cur] + split_from(line@.skip(i + 1), seq![]))
                        =~= before.push(cur) + split_from(line@.skip(i + 1), seq![]));
                    assert(line@.subrange(i + 1, i + 1) =~= seq![]);
                }
            } else {
                proof {
                    assert(cur =~= seq![]);
                    assert(line@.subrange(i + 1, i + 1) =~= seq![]);
                    assert(split_from(rest, cur) == seq![] + split_from(
                        line@.skip(i + 1),
                        seq![],
                    ));
                    assert(seq![] + split_from(line@.skip(i + 1), seq![]) =~= split_from(
                        line@.skip(i + 1),
                        seq![],
                    ));
                }
            }
            start = i + 1;
        } else {
            proof {
                assert(cur.push(c) =~= line@.subrange(start as int, i + 1));
            }
        }
        i = i + 1;
    }
    if start < n {
        let word = line.substring_char(start, n);
        let ghost before = words(tokens@);
        tokens.push(word.to_owned());
        proof {
            assert(words(tokens@) =~= before.push(word@));
        }
    }
    proof {
        assert(line@.skip(i as int) =~= seq![]);
    }
    tokens
}

} // verus!

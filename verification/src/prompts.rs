//! Assembly of the system prompt from its configured source text.
//!
//! The prompt file is read by the process edge; this module holds the
//! decision: a missing or blank prompt falls back to the default, a
//! usable one is trimmed and gets the metadata format appended.

use vstd::prelude::*;
use vstd::string::StrSliceExecFns;
use vstd::string::StringExecFns;

verus! {

/// Whether `c` is whitespace, as the Unicode `White_Space` property
/// defines it.
pub open spec fn is_space_char(c: char) -> bool {
    ||| c == '\t'
    ||| c == '\n'
    ||| c == '\u{0B}'
    ||| c == '\u{0C}'
    ||| c == '\r'
    ||| c == ' '
    ||| c == '\u{85}'
    ||| c == '\u{A0}'
    ||| c == '\u{1680}'
    ||| ('\u{2000}' <= c && c <= '\u{200A}')
    ||| c == '\u{2028}'
    ||| c == '\u{2029}'
    ||| c == '\u{202F}'
    ||| c == '\u{205F}'
    ||| c == '\u{3000}'
}

/// `s` without leading and trailing whitespace.
pub open spec fn trimmed(s: Seq<char>) -> Seq<char>
    decreases s.len(),
{
    if s.len() == 0 {
        s
    } else if is_space_char(s[0]) {
        trimmed(s.drop_first())
    } else if is_space_char(s.last()) {
        trimmed(s.drop_last())
    } else {
        s
    }
}

fn is_space(c: char) -> (r: bool)
    ensures
        r == is_space_char(c),
{
    c == '\t' || c == '\n' || c == '\u{0B}' || c == '\u{0C}' || c == '\r' || c == ' ' || c
        == '\u{85}' || c == '\u{A0}' || c == '\u{1680}' || ('\u{2000}' <= c && c <= '\u{200A}')
        || c == '\u{2028}' || c == '\u{2029}' || c == '\u{202F}' || c == '\u{205F}' || c
        == '\u{3000}'
}

/// Removes leading and trailing whitespace.
pub fn trim_text(s: &str) -> (r: String)
    ensures
        r@ == trimmed(s@),
{
    let n = s.unicode_len();
    let mut a: usize = 0;
    let mut b: usize = n;
    proof {
        assert(s@.subrange(0, n as int) =~= s@);
    }
    while a < b && is_space(s.get_char(a))
        invariant
            b == n,
            n == s@.len(),
            a <= b,
            trimmed(s@) == trimmed(s@.subrange(a as int, b as int)),
        decreases b - a,
    {
        proof {
            assert(s@.subrange(a as int, b as int).drop_first() =~= s@.subrange(
                a as int + 1,
                b as int,
            ));
        }
        a = a + 1;
    }
    while b > a && is_space(s.get_char(b - 1))
        invariant
            n == s@.len(),
            a <= b <= n,
            trimmed(s@) == trimmed(s@.subrange(a as int, b as int)),
            a < b ==> !is_space_char(s@[a as int]),
        decreases b - a,
    {
        proof {
            assert(s@.subrange(a as int, b as int).drop_last() =~= s@.subrange(
                a as int,
                b as int - 1,
            ));
        }
        b = b - 1;
    }
    let r = s.substring_char(a, b).to_owned();
    proof {
        if a < b {
            assert(trimmed(s@.subrange(a as int, b as int)) == s@.subrange(a as int, b as int));
        } else {
            assert(s@.subrange(a as int, b as int) =~= Seq::<char>::empty());
        }
    }
    r
}

/// The system prompt to use, given the prompt file's content (absent
/// when the file could not be read): the default when nothing usable is
/// there, else the trimmed text with the metadata format appended.
pub fn compose_system_prompt(file_content: Option<String>) -> (r: String)
    ensures
        file_content is None ==> r@ == "You are a helpful assistant."@,
        file_content matches Some(c) ==> (if trimmed(c@).len() == 0 {
            r@ == "You are a helpful assistant."@
        } else {
            r@ == trimmed(c@)
                + "# format of metadata\n<metadata>\nGuild: <guild_name> (<guild_id>)\nChannel: <category_name> > <channel_name> (<channel_id>)\nUser: <user_name> (<user_id>)\n</metadata>\n\n"@
        }),
{
    match file_content {
        None => "You are a helpful assistant.".to_owned(),
        Some(c) => {
            let mut t = trim_text(c.as_str());
            if t.as_str().unicode_len() == 0 {
                "You are a helpful assistant.".to_owned()
            } else {
                t.append(
                    "# format of metadata\n<metadata>\nGuild: <guild_name> (<guild_id>)\nChannel: <category_name> > <channel_name> (<channel_id>)\nUser: <user_name> (<user_id>)\n</metadata>\n\n",
                );
                t
            }
        }
    }
}

} // verus!

//! The decisions of the inbound-message handler, free of any platform
//! plumbing: whether a message is handled at all, the metadata block
//! put before the user input, and the splitting of long replies.

use vstd::prelude::*;
use vstd::slice::{slice_subrange, slice_to_vec};
use vstd::string::StrSliceExecFns;
use vstd::string::StringExecFns;

use crate::text::{dec_rep, u64_to_string};

verus! {

/// Whether the message text starts with the command prefix `w!`.
pub open spec fn has_command_prefix(s: Seq<char>) -> bool {
    s.len() >= 2 && s[0] == 'w' && s[1] == '!'
}

/// Whether an inbound message is for the agent: not from a bot, not a
/// command, and from the allowed user when an allow-list is configured.
pub fn should_handle(
    author_is_bot: bool,
    content: &str,
    author_id: u64,
    allowed_user_id: Option<u64>,
) -> (r: bool)
    ensures
        r == (!author_is_bot && !has_command_prefix(content@) && (match allowed_user_id {
            Some(a) => author_id == a,
            None => true,
        })),
{
    if author_is_bot {
        return false;
    }
    let n = content.unicode_len();
    if n >= 2 && content.get_char(0) == 'w' && content.get_char(1) == '!' {
        return false;
    }
    match allowed_user_id {
        Some(a) => author_id == a,
        None => true,
    }
}

/// The metadata block describing where a message came from.
pub open spec fn metadata_text(
    guild_name: Seq<char>,
    guild_id: Option<u64>,
    category_name: Seq<char>,
    channel_name: Seq<char>,
    channel_id: u64,
    user_name: Seq<char>,
    user_id: u64,
) -> Seq<char> {
    "<metadata>\nGuild: "@ + guild_name + " ("@ + (match guild_id {
        Some(g) => dec_rep(g as nat),
        None => "0"@,
    }) + ")\nChannel: "@ + category_name + " > "@ + channel_name + " ("@ + dec_rep(
        channel_id as nat,
    ) + ")\nUser: "@ + user_name + " ("@ + dec_rep(user_id as nat) + ")\n</metadata>"@
}

/// Renders the metadata block for one inbound message; a message
/// without a guild is reported under guild id `0`.
pub fn format_metadata(
    guild_name: &str,
    guild_id: Option<u64>,
    category_name: &str,
    channel_name: &str,
    channel_id: u64,
    user_name: &str,
    user_id: u64,
) -> (r: String)
    ensures
        r@ == metadata_text(
            guild_name@,
            guild_id,
            category_name@,
            channel_name@,
            channel_id,
            user_name@,
            user_id,
        ),
{
    let mut s: String = "<metadata>\nGuild: ".to_owned();
    s.append(guild_name);
    s.append(" (");
    match guild_id {
        Some(g) => {
            s.append(u64_to_string(g).as_str());
        }
        None => {
            s.append("0");
        }
    }
    s.append(")\nChannel: ");
    s.append(category_name);
    s.append(" > ");
    s.append(channel_name);
    s.append(" (");
    s.append(u64_to_string(channel_id).as_str());
    s.append(")\nUser: ");
    s.append(user_name);
    s.append(" (");
    s.append(u64_to_string(user_id).as_str());
    s.append(")\n</metadata>");
    proof {
        assert(s@ =~= metadata_text(
            guild_name@,
            guild_id,
            category_name@,
            channel_name@,
            channel_id,
            user_name@,
            user_id,
        ));
    }
    s
}

/// The prompt handed to a turn: the metadata block, a blank line, then
/// the user input inside its tag.
pub fn compose_user_prompt(metadata: &str, content: &str) -> (r: String)
    ensures
        r@ == metadata@ + "\n\n<user_input>"@ + content@ + "</user_input>"@,
{
    let mut s: String = metadata.to_owned();
    s.append("\n\n<user_input>");
    s.append(content);
    s.append("</user_input>");
    proof {
        assert(s@ =~= metadata@ + "\n\n<user_input>"@ + content@ + "</user_input>"@);
    }
    s
}

/// The bytes of the given pieces, in order.
pub open spec fn concat_bytes(pieces: Seq<Seq<u8>>) -> Seq<u8>
    decreases pieces.len(),
{
    if pieces.len() == 0 {
        Seq::empty()
    } else {
        concat_bytes(pieces.drop_last()) + pieces.last()
    }
}

/// Splits a reply's bytes into consecutive pieces of at most `size`
/// bytes: all pieces but the last are exactly `size` long, none is
/// empty, and together they are the original bytes.
pub fn byte_chunks(data: &[u8], size: usize) -> (r: Vec<Vec<u8>>)
    requires
        size > 0,
    ensures
        concat_bytes(r@.map_values(|c: Vec<u8>| c@)) == data@,
        forall|j: int| 0 <= j < r@.len() ==> 0 < (#[trigger] r@[j])@.len() <= size,
        forall|j: int| 0 <= j < r@.len() - 1 ==> (#[trigger] r@[j])@.len() == size,
{
    let n = data.len();
    let mut r: Vec<Vec<u8>> = Vec::new();
    let mut pos: usize = 0;
    proof {
        assert(concat_bytes(r@.map_values(|c: Vec<u8>| c@)) =~= data@.take(0));
    }
    while pos < n
        invariant
            n == data@.len(),
            pos <= n,
            size > 0,
            concat_bytes(r@.map_values(|c: Vec<u8>| c@)) == data@.take(pos as int),
            forall|j: int| 0 <= j < r@.len() ==> 0 < (#[trigger] r@[j])@.len() <= size,
            pos < n ==> forall|j: int| 0 <= j < r@.len() ==> (#[trigger] r@[j])@.len() == size,
            forall|j: int| 0 <= j < r@.len() - 1 ==> (#[trigger] r@[j])@.len() == size,
        decreases n - pos,
    {
        let end = if n - pos < size {
            n
        } else {
            pos + size
        };
        let ghost prev = r@.map_values(|c: Vec<u8>| c@);
        let piece = slice_to_vec(slice_subrange(data, pos, end));
        let ghost pv = piece@;
        r.push(piece);
        proof {
            let mapped = r@.map_values(|c: Vec<u8>| c@);
            assert(mapped.drop_last() =~= prev);
            assert(mapped.last() == pv);
            assert(concat_bytes(mapped) == concat_bytes(prev) + pv);
            assert(data@.take(pos as int) + data@.subrange(pos as int, end as int) =~= data@.take(
                end as int,
            ));
        }
        pos = end;
    }
    proof {
        assert(data@.take(n as int) =~= data@);
    }
    r
}

} // verus!

//! What every native adapter shares: how it reports its last error, and how
//! its texts are read.

use crate::text;
use vstd::prelude::*;
use vstd::string::*;

verus! {

/// What a native adapter answers when it is asked for its last error: a
/// status, and the buffer that it filled.
#[derive(Debug)]
pub struct LastError {
    pub status: i32,
    pub buffer: Vec<u8>,
}

/// The bytes before the first NUL.
pub open spec fn until_nul(bytes: Seq<u8>) -> Seq<u8>
    decreases bytes.len(),
{
    if bytes.len() == 0 || bytes[0] == 0 {
        seq![]
    } else {
        seq![bytes[0]] + until_nul(bytes.drop_first())
    }
}

/// The text of a native adapter's last error, as `function` reported it.
pub open spec fn last_error_view(function: Seq<char>, reply: LastError) -> Seq<char> {
    if reply.status != 0 {
        function + " failed with status "@ + text::signed_decimal(reply.status as int)
    } else {
        text::lossy_text(until_nul(reply.buffer@))
    }
}

/// How large a buffer to offer for an error that needs `required` bytes.
pub fn error_buffer_len(required: usize) -> (len: usize)
    ensures
        len == if required > 1 {
            required
        } else {
            1
        },
{
    if required > 1 {
        required
    } else {
        1
    }
}

/// The bytes up to the first NUL are those before it.
proof fn lemma_until_nul(bytes: Seq<u8>, len: int)
    requires
        0 <= len <= bytes.len(),
        forall|k: int| 0 <= k < len ==> bytes[k] != 0,
        len < bytes.len() ==> bytes[len] == 0,
    ensures
        until_nul(bytes) == bytes.take(len),
    decreases bytes.len(),
{
    if bytes.len() > 0 && len > 0 {
        let rest = bytes.drop_first();
        assert forall|k: int| 0 <= k < len - 1 implies rest[k] != 0 by {
            assert(rest[k] == bytes[k + 1]);
        }
        lemma_until_nul(rest, len - 1);
        assert(bytes.take(len) =~= seq![bytes[0]] + rest.take(len - 1));
    } else {
        assert(bytes.take(len) =~= seq![]);
    }
}

/// The text of a native adapter's last error, as `function` reported it.
pub fn last_error_text(function: &str, reply: &LastError) -> (message: String)
    ensures
        message@ == last_error_view(function@, *reply),
{
    if reply.status != 0 {
        return function.to_owned().concat(" failed with status ").concat(
            text::signed_decimal_text(reply.status as i64).as_str(),
        );
    }
    let mut bytes: Vec<u8> = Vec::new();
    let mut i: usize = 0;
    while i < reply.buffer.len() && reply.buffer[i] != 0
        invariant
            i <= reply.buffer.len(),
            bytes@ == reply.buffer@.take(i as int),
            forall|k: int| 0 <= k < i ==> reply.buffer@[k] != 0,
        decreases reply.buffer.len() - i,
    {
        bytes.push(reply.buffer[i]);
        i = i + 1;
    }
    proof {
        lemma_until_nul(reply.buffer@, i as int);
    }
    text::utf8_lossy(bytes.as_slice())
}

/// A text that a native adapter lends: its length, and its bytes, where it
/// points to any.
#[derive(Debug)]
pub struct LentText {
    pub len: u64,
    pub data: Option<Vec<u8>>,
}

} // verus!

//! Splitting long reply text into chat-sized pieces.

use vstd::prelude::*;

verus! {

use vstd::string::StringExecFns;
use vstd::string::StrSliceExecFns;

/// How a long message is split: text over 1900 characters goes out in
/// 1000-character pieces, the remainder last.
pub open spec fn spec_split_for_discord(s: Seq<char>) -> Seq<Seq<char>>
    decreases s.len(),
{
    if s.len() > 1900 {
        seq![s.take(1000)] + spec_split_for_discord(s.skip(1000))
    } else {
        seq![s]
    }
}

/// Splits a message as `spec_split_for_discord` describes.
pub fn split_for_discord(msg: &str) -> (r: Vec<String>)
    ensures
        r.deep_view() == spec_split_for_discord(msg@),
    decreases msg@.len(),
{
    let n = msg.unicode_len();
    if n > 1900 {
        let head = msg.substring_char(0, 1000);
        let tail = msg.substring_char(1000, n);
        let mut rest = split_for_discord(tail);
        let mut r: Vec<String> = Vec::new();
        r.push(String::from_str(head));
        let mut i: usize = 0;
        while i < rest.len()
            invariant
                0 <= i <= rest@.len(),
                r@.len() == i + 1,
                r.deep_view()[0] == msg@.take(1000),
                forall|k: int|
                    0 <= k < i ==> r.deep_view()[k + 1] == #[trigger] rest.deep_view()[k],
                rest.deep_view() == spec_split_for_discord(msg@.skip(1000)),
            decreases rest@.len() - i,
        {
            let piece = rest[i].clone();
            r.push(piece);
            i = i + 1;
        }
        proof {
            assert(r.deep_view() =~= seq![msg@.take(1000)] + spec_split_for_discord(
                msg@.skip(1000),
            ));
        }
        r
    } else {
        let mut r: Vec<String> = Vec::new();
        r.push(String::from_str(msg));
        proof {
            assert(r.deep_view() =~= seq![msg@]);
        }
        r
    }
}

} // verus!

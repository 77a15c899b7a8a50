//! The OSC message that puts a line of text into VRChat's chatbox.
use vstd::prelude::*;
use vstd::utf8::encode_utf8;

verus! {

/// `b` ended by a NUL and padded with more NULs to a multiple of four bytes, as OSC
/// writes strings.
pub open spec fn osc_padded(b: Seq<u8>) -> Seq<u8> {
    let n = b.len() + 1;
    b + Seq::new((1 + (4 - n % 4) % 4) as nat, |i: int| 0u8)
}

/// Address of VRChat's chatbox input.
pub const CHATBOX_ADDRESS: &'static str = "/chatbox/input";

/// Type tags of the chatbox message: a string, then `true` (send at once rather than
/// open the keyboard), then `false` (no notification sound).
pub const CHATBOX_TYPE_TAGS: &'static str = ",sTF";

/// The chatbox message for `text`: address, type tags and the text, each an OSC
/// string.
pub open spec fn chatbox_packet(text: Seq<char>) -> Seq<u8> {
    osc_padded(encode_utf8(CHATBOX_ADDRESS@)) + osc_padded(encode_utf8(CHATBOX_TYPE_TAGS@))
        + osc_padded(encode_utf8(text))
}

fn push_padded(out: &mut Vec<u8>, b: &[u8])
    ensures
        final(out)@ == old(out)@ + osc_padded(b@),
{
    let ghost start = out@;
    let mut i: usize = 0;
    while i < b.len()
        invariant
            0 <= i <= b.len(),
            out@ == start + b@.take(i as int),
        decreases b.len() - i,
    {
        out.push(b[i]);
        assert(b@.take(i + 1) =~= b@.take(i as int).push(b@[i as int]));
        i = i + 1;
    }
    assert(b@.take(b.len() as int) =~= b@);
    let n = b.len() % 4;
    let zeros: usize = 4 - n;
    let mut k: usize = 0;
    while k < zeros
        invariant
            0 <= k <= zeros,
            zeros == 4 - b@.len() % 4,
            out@ == start + b@ + Seq::new(k as nat, |j: int| 0u8),
        decreases zeros - k,
    {
        out.push(0u8);
        assert(Seq::new((k + 1) as nat, |j: int| 0u8) =~= Seq::new(k as nat, |j: int| 0u8).push(0u8));
        k = k + 1;
    }
    assert(zeros == 1 + (4 - (b@.len() + 1) % 4) % 4) by {
        let l = b@.len();
        assert(l % 4 == 0 ==> (l + 1) % 4 == 1);
        assert(l % 4 == 1 ==> (l + 1) % 4 == 2);
        assert(l % 4 == 2 ==> (l + 1) % 4 == 3);
        assert(l % 4 == 3 ==> (l + 1) % 4 == 0);
    }
    assert(start + b@ + Seq::new(zeros as nat, |j: int| 0u8) =~= start + osc_padded(b@));
}

/// The bytes of the OSC message that types `text` into the chatbox and sends it at
/// once, without the notification sound.
pub fn chatbox_message(text: &str) -> (r: Vec<u8>)
    ensures
        r@ == chatbox_packet(text@),
{
    let mut r: Vec<u8> = Vec::new();
    push_padded(&mut r, CHATBOX_ADDRESS.as_bytes());
    push_padded(&mut r, CHATBOX_TYPE_TAGS.as_bytes());
    push_padded(&mut r, text.as_bytes());
    assert(r@ =~= chatbox_packet(text@));
    r
}

/// A padded OSC string fills whole four-byte words.
pub proof fn lemma_padded_aligned(b: Seq<u8>)
    ensures
        osc_padded(b).len() % 4 == 0,
        osc_padded(b).len() > b.len(),
{
    let n = b.len() + 1;
    assert((n + (4 - n % 4) % 4) % 4 == 0);
}

/// The chatbox message fills whole four-byte words, as OSC requires.
pub proof fn lemma_chatbox_aligned(text: Seq<char>)
    ensures
        chatbox_packet(text).len() % 4 == 0,
{
    lemma_padded_aligned(encode_utf8(CHATBOX_ADDRESS@));
    lemma_padded_aligned(encode_utf8(CHATBOX_TYPE_TAGS@));
    lemma_padded_aligned(encode_utf8(text));
}

} // verus!

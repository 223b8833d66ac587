//! The one's-complement checksum of ICMP, as a mathematical function of the
//! message bytes, with the facts about it that the interceptor relies on.

use vstd::prelude::*;

verus! {

/// The sum of the 16-bit big-endian words of `data`. A trailing odd byte
/// counts as the high byte of a last word whose low byte is zero.
pub open spec fn word_sum(data: Seq<u8>) -> nat
    decreases data.len(),
{
    if data.len() == 0 {
        0
    } else if data.len() == 1 {
        data[0] as nat * 256
    } else {
        (data[0] as nat * 256 + data[1] as nat) + word_sum(data.skip(2))
    }
}

/// Adds the carries above bit 15 back into the low 16 bits until none is left.
pub open spec fn fold_carries(sum: nat) -> nat
    decreases sum,
{
    if sum < 0x1_0000 {
        sum
    } else {
        fold_carries(sum / 0x1_0000 + sum % 0x1_0000)
    }
}

/// The one's-complement sum of a word total: zero for zero, otherwise the
/// representative of `sum` modulo 65535 that lies in `1..=65535`.
pub open spec fn ones_complement_sum(sum: nat) -> nat {
    if sum == 0 {
        0
    } else {
        ((sum - 1) % 0xffff + 1) as nat
    }
}

/// The checksum of `data`: the complement of its folded word sum.
pub open spec fn internet_checksum(data: Seq<u8>) -> nat {
    (0xffff - fold_carries(word_sum(data))) as nat
}

/// `message` with the two bytes of its checksum field set to zero.
pub open spec fn checksum_field_cleared(message: Seq<u8>) -> Seq<u8>
    recommends
        message.len() >= 4,
{
    message.update(2, 0u8).update(3, 0u8)
}

/// The value that belongs in the checksum field of an ICMP message: the
/// checksum of the message taken with that field as zero.
pub open spec fn message_checksum(message: Seq<u8>) -> nat
    recommends
        message.len() >= 4,
{
    internet_checksum(checksum_field_cleared(message))
}

/// Whether an ICMP message passes the receiver's test: its words, checksum
/// field included, add up to all ones.
pub open spec fn checksum_validates(message: Seq<u8>) -> bool {
    fold_carries(word_sum(message)) == 0xffff
}

/// Folding the carries computes the one's-complement sum.
pub proof fn lemma_fold_is_ones_complement_sum(sum: nat)
    ensures
        fold_carries(sum) == ones_complement_sum(sum),
        fold_carries(sum) <= 0xffff,
    decreases sum,
{
    if sum >= 0x1_0000 {
        let next = sum / 0x1_0000 + sum % 0x1_0000;
        assert(next < sum);
        assert(next > 0);
        lemma_fold_is_ones_complement_sum(next);
        let q = sum / 0x1_0000;
        assert(sum == q * 0x1_0000 + sum % 0x1_0000);
        assert(sum - 1 == (next - 1) + q * 0xffff);
        assert((sum - 1) % 0xffff == (next - 1) % 0xffff) by {
            vstd::arithmetic::div_mod::lemma_mod_multiples_vanish(q as int, next - 1, 0xffff);
        }
    }
}

/// The word sum of a message splits into the part outside the checksum field
/// and the value held in the field.
pub proof fn lemma_word_sum_checksum_field(message: Seq<u8>)
    requires
        message.len() >= 4,
    ensures
        word_sum(message) == word_sum(checksum_field_cleared(message)) + message[2] * 256
            + message[3],
{
    let cleared = checksum_field_cleared(message);
    assert(message.skip(2).skip(2) =~= cleared.skip(2).skip(2));
    assert(word_sum(message) == (message[0] * 256 + message[1]) + word_sum(message.skip(2)));
    assert(word_sum(message.skip(2)) == (message[2] * 256 + message[3]) + word_sum(
        message.skip(2).skip(2),
    ));
    assert(word_sum(cleared) == (cleared[0] * 256 + cleared[1]) + word_sum(cleared.skip(2)));
    assert(word_sum(cleared.skip(2)) == (cleared.skip(2)[0] * 256 + cleared.skip(2)[1])
        + word_sum(cleared.skip(2).skip(2)));
}

/// A message whose checksum field holds the checksum computed over the rest
/// of it passes the receiver's test.
pub proof fn lemma_stored_checksum_validates(message: Seq<u8>)
    requires
        message.len() >= 4,
        message[2] * 256 + message[3] == message_checksum(message),
    ensures
        checksum_validates(message),
{
    let rest = word_sum(checksum_field_cleared(message));
    let stored = message_checksum(message);
    lemma_word_sum_checksum_field(message);
    lemma_fold_is_ones_complement_sum(rest);
    lemma_fold_is_ones_complement_sum(rest + stored);
    if rest > 0 {
        let q = (rest - 1) / 0xffff;
        let r = (rest - 1) % 0xffff;
        assert(rest - 1 == q * 0xffff + r);
        assert(rest + stored - 1 == q * 0xffff + 0xfffe);
        assert((rest + stored - 1) % 0xffff == 0xfffe) by {
            vstd::arithmetic::div_mod::lemma_mod_multiples_vanish(q as int, 0xfffe, 0xffff);
        }
    }
}

} // verus!

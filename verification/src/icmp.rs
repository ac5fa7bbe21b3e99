//! The ICMP echo request that a ping sends, and the decisions of one ping.
use vstd::prelude::*;

verus! {

/// Length in bytes of the echo request that a ping sends.
pub const ECHO_REQUEST_LEN: usize = 16;

/// How many echo requests a ping sends before it gives up.
pub const PING_ATTEMPTS: u32 = 5;

/// ICMP type of an echo request.
pub const ICMP_ECHO_REQUEST: u8 = 8;

/// The big-endian 16-bit word at word offset `i` of `data`.
pub open spec fn be_word(data: Seq<u8>, i: int) -> int {
    data[2 * i] as int * 256 + data[2 * i + 1] as int
}

/// The sum of the first `n` big-endian words of `data`, leaving out word `skip`.
pub open spec fn word_sum(data: Seq<u8>, skip: int, n: int) -> int
    decreases n,
{
    if n <= 0 {
        0
    } else {
        word_sum(data, skip, n - 1) + if n - 1 == skip {
            0
        } else {
            be_word(data, n - 1)
        }
    }
}

/// The sum of all big-endian words of `data` but word `skip`; a last odd byte
/// counts as the high byte of a word.
pub open spec fn be_words_sum(data: Seq<u8>, skip: int) -> int {
    let n = data.len() / 2;
    word_sum(data, skip, n as int) + if data.len() % 2 == 1 && n != skip {
        data.last() as int * 256
    } else {
        0
    }
}

/// Adds the carries above 16 bits back into the low 16 bits until none is left.
pub open spec fn fold_carries(sum: nat) -> nat
    decreases sum,
{
    if sum < 65536 {
        sum
    } else {
        fold_carries(sum / 65536 + sum % 65536)
    }
}

/// The Internet checksum (the ones' complement of the ones' complement sum of
/// the 16-bit words) of `data`, with the word at `skip` taken as zero; zero for
/// no data.
pub open spec fn internet_checksum(data: Seq<u8>, skip: int) -> int {
    if data.len() == 0 {
        0
    } else {
        65535 - fold_carries(be_words_sum(data, skip) as nat)
    }
}

/// `pnet::util::checksum`: the Internet checksum of `data`, with the word at
/// word offset `skipword` (the checksum field) taken as zero. Its 32-bit sum
/// cannot overflow on data of this length.
#[verifier::external_body]
fn checksum(data: &[u8], skipword: usize) -> (r: u16)
    requires
        data@.len() <= 131070,
    ensures
        r as int == internet_checksum(data@, skipword as int),
{
    pnet::util::checksum(data, skipword)
}

/// The echo request with identifier 1 and sequence number 1 and an empty
/// payload of eight zero bytes, before its checksum is filled in.
pub open spec fn unsummed_echo_request() -> Seq<u8> {
    seq![ICMP_ECHO_REQUEST, 0u8, 0u8, 0u8, 0u8, 1u8, 0u8, 1u8, 0u8, 0u8, 0u8, 0u8, 0u8, 0u8, 0u8, 0u8]
}

/// The echo request with its checksum field (bytes 2 and 3, big-endian) set to `sum`.
pub open spec fn echo_request_with_checksum(sum: int) -> Seq<u8> {
    unsummed_echo_request().update(2, (sum / 256) as u8).update(3, (sum % 256) as u8)
}

proof fn lemma_unsummed_checksum()
    ensures
        internet_checksum(unsummed_echo_request(), 1) == 0xF7FD,
{
    let d = unsummed_echo_request();
    reveal_with_fuel(word_sum, 9);
    assert(be_word(d, 0) == 2048);
    assert(be_word(d, 2) == 1);
    assert(be_word(d, 3) == 1);
    assert(be_word(d, 4) == 0);
    assert(be_word(d, 5) == 0);
    assert(be_word(d, 6) == 0);
    assert(be_word(d, 7) == 0);
    assert(word_sum(d, 1, 8) == 2050);
    assert(be_words_sum(d, 1) == 2050);
    assert(fold_carries(2050) == 2050);
}

/// The finished echo request checks: its checksum over all its words is zero.
proof fn lemma_echo_request_sums_to_zero(d: Seq<u8>)
    requires
        d == seq![8u8, 0u8, 0xF7u8, 0xFDu8, 0u8, 1u8, 0u8, 1u8, 0u8, 0u8, 0u8, 0u8, 0u8, 0u8, 0u8, 0u8],
    ensures
        internet_checksum(d, 8) == 0,
{
    reveal_with_fuel(word_sum, 9);
    assert(be_word(d, 0) == 2048);
    assert(be_word(d, 1) == 0xF7FD);
    assert(be_word(d, 2) == 1);
    assert(be_word(d, 3) == 1);
    assert(be_word(d, 4) == 0);
    assert(be_word(d, 5) == 0);
    assert(be_word(d, 6) == 0);
    assert(be_word(d, 7) == 0);
    assert(word_sum(d, 8, 8) == 0xFFFF);
    assert(be_words_sum(d, 8) == 0xFFFF);
    assert(fold_carries(0xFFFF) == 0xFFFF);
}

/// Builds the echo request that a ping sends: type 8, code 0, identifier 1,
/// sequence number 1, eight zero bytes of payload, and the Internet checksum
/// over the packet in its checksum field.
pub fn echo_request_packet() -> (r: Vec<u8>)
    ensures
        r@ == echo_request_with_checksum(internet_checksum(unsummed_echo_request(), 1)),
        r@ == seq![8u8, 0u8, 0xF7u8, 0xFDu8, 0u8, 1u8, 0u8, 1u8, 0u8, 0u8, 0u8, 0u8, 0u8, 0u8, 0u8, 0u8],
        internet_checksum(r@, 8) == 0,
{
    let mut packet: Vec<u8> = Vec::new();
    let mut i: usize = 0;
    while i < ECHO_REQUEST_LEN
        invariant
            i <= ECHO_REQUEST_LEN,
            packet@.len() == i,
            forall|j: int| 0 <= j < i ==> packet@[j] == 0u8,
        decreases ECHO_REQUEST_LEN - i,
    {
        packet.push(0u8);
        i = i + 1;
    }
    packet.set(0, ICMP_ECHO_REQUEST);
    packet.set(4, 0);
    packet.set(5, 1);
    packet.set(6, 0);
    packet.set(7, 1);
    assert(packet@ =~= unsummed_echo_request());
    let sum = checksum(packet.as_slice(), 1);
    packet.set(2, (sum / 256) as u8);
    packet.set(3, (sum % 256) as u8);
    proof {
        lemma_unsummed_checksum();
    }
    assert(packet@ =~= echo_request_with_checksum(internet_checksum(unsummed_echo_request(), 1)));
    assert(packet@ =~= seq![8u8, 0u8, 0xF7u8, 0xFDu8, 0u8, 1u8, 0u8, 1u8, 0u8, 0u8, 0u8, 0u8, 0u8, 0u8, 0u8, 0u8]);
    proof {
        lemma_echo_request_sums_to_zero(packet@);
    }
    packet
}

/// What came back while a ping waited for a reply to its last request.
pub enum PingReply {
    /// Nothing before the wait ran out.
    Timeout,
    /// An echo reply from this IPv4 address.
    From([u8; 4]),
    /// An echo reply from an address of another family.
    FromOther,
}

/// What a ping does after waiting for a reply.
#[derive(PartialEq, Eq, Structural, Clone, Copy, Debug)]
pub enum PingProgress {
    /// The target answered.
    Reachable,
    /// Send another request and wait again.
    SendAgain,
    /// All attempts are used up without an answer from the target.
    Unreachable,
}

/// Whether `reply` comes from `target`.
pub open spec fn reply_is_from(reply: PingReply, target: [u8; 4]) -> bool {
    match reply {
        PingReply::From(a) => a@ == target@,
        _ => false,
    }
}

/// The step of a ping after the `attempts`-th request and the wait that followed it.
pub open spec fn ping_progress_spec(target: [u8; 4], reply: PingReply, attempts: u32) -> PingProgress {
    if reply_is_from(reply, target) {
        PingProgress::Reachable
    } else if attempts >= PING_ATTEMPTS {
        PingProgress::Unreachable
    } else {
        PingProgress::SendAgain
    }
}

/// Decides what a ping of `target` does after its `attempts`-th request was
/// answered by `reply`: a reply from the target ends it as reachable; any
/// other reply, or none, leads to another request until five were sent.
pub fn ping_progress(target: [u8; 4], reply: &PingReply, attempts: u32) -> (r: PingProgress)
    requires
        1 <= attempts <= PING_ATTEMPTS,
    ensures
        r == ping_progress_spec(target, *reply, attempts),
{
    let from_target = match reply {
        PingReply::From(a) => {
            let same = a[0] == target[0] && a[1] == target[1] && a[2] == target[2] && a[3]
                == target[3];
            proof {
                if same {
                    assert(a@ =~= target@);
                }
            }
            same
        },
        _ => false,
    };
    if from_target {
        PingProgress::Reachable
    } else if attempts >= PING_ATTEMPTS {
        PingProgress::Unreachable
    } else {
        PingProgress::SendAgain
    }
}

} // verus!

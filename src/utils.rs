use vstd::prelude::*;
use solana_program::pubkey::ParsePubkeyError;
use crate::fetcher::raw::{MessageHeader, RawMessage};
use crate::keys::{
    decode_pubkey, decoded_pubkey, is_reserved_key, is_upgradeable_loader, reserved_key,
    upgradeable_loader_key,
};

verus! {

/// Fibonacci numbers counted from `fib(0) == fib(1) == 1`.
pub open spec fn fib(n: nat) -> nat
    decreases n,
{
    if n < 2 {
        1
    } else {
        fib((n - 1) as nat) + fib((n - 2) as nat)
    }
}

/// Largest index whose Fibonacci number fits in a `u64`.
pub const MAX_FIB_INDEX: u64 = 92;

proof fn lemma_fib_monotonic(i: nat, j: nat)
    requires
        i <= j,
    ensures
        fib(i) <= fib(j),
    decreases j,
{
    if i < j {
        lemma_fib_monotonic(i, (j - 1) as nat);
    }
}

/// The values of `fib` up to index 92, each from the two before it.
proof fn lemma_fib_values()
    ensures
        fib(91) == 7540113804746346429,
        fib(92) == 12200160415121876738,
{
    reveal_with_fuel(fib, 2);
    assert(fib(2) == 2);
    assert(fib(3) == 3);
    assert(fib(4) == 5);
    assert(fib(5) == 8);
    assert(fib(6) == 13);
    assert(fib(7) == 21);
    assert(fib(8) == 34);
    assert(fib(9) == 55);
    assert(fib(10) == 89);
    assert(fib(11) == 144);
    assert(fib(12) == 233);
    assert(fib(13) == 377);
    assert(fib(14) == 610);
    assert(fib(15) == 987);
    assert(fib(16) == 1597);
    assert(fib(17) == 2584);
    assert(fib(18) == 4181);
    assert(fib(19) == 6765);
    assert(fib(20) == 10946);
    assert(fib(21) == 17711);
    assert(fib(22) == 28657);
    assert(fib(23) == 46368);
    assert(fib(24) == 75025);
    assert(fib(25) == 121393);
    assert(fib(26) == 196418);
    assert(fib(27) == 317811);
    assert(fib(28) == 514229);
    assert(fib(29) == 832040);
    assert(fib(30) == 1346269);
    assert(fib(31) == 2178309);
    assert(fib(32) == 3524578);
    assert(fib(33) == 5702887);
    assert(fib(34) == 9227465);
    assert(fib(35) == 14930352);
    assert(fib(36) == 24157817);
    assert(fib(37) == 39088169);
    assert(fib(38) == 63245986);
    assert(fib(39) == 102334155);
    assert(fib(40) == 165580141);
    assert(fib(41) == 267914296);
    assert(fib(42) == 433494437);
    assert(fib(43) == 701408733);
    assert(fib(44) == 1134903170);
    assert(fib(45) == 1836311903);
    assert(fib(46) == 2971215073);
    assert(fib(47) == 4807526976);
    assert(fib(48) == 7778742049);
    assert(fib(49) == 12586269025);
    assert(fib(50) == 20365011074);
    assert(fib(51) == 32951280099);
    assert(fib(52) == 53316291173);
    assert(fib(53) == 86267571272);
    assert(fib(54) == 139583862445);
    assert(fib(55) == 225851433717);
    assert(fib(56) == 365435296162);
    assert(fib(57) == 591286729879);
    assert(fib(58) == 956722026041);
    assert(fib(59) == 1548008755920);
    assert(fib(60) == 2504730781961);
    assert(fib(61) == 4052739537881);
    assert(fib(62) == 6557470319842);
    assert(fib(63) == 10610209857723);
    assert(fib(64) == 17167680177565);
    assert(fib(65) == 27777890035288);
    assert(fib(66) == 44945570212853);
    assert(fib(67) == 72723460248141);
    assert(fib(68) == 117669030460994);
    assert(fib(69) == 190392490709135);
    assert(fib(70) == 308061521170129);
    assert(fib(71) == 498454011879264);
    assert(fib(72) == 806515533049393);
    assert(fib(73) == 1304969544928657);
    assert(fib(74) == 2111485077978050);
    assert(fib(75) == 3416454622906707);
    assert(fib(76) == 5527939700884757);
    assert(fib(77) == 8944394323791464);
    assert(fib(78) == 14472334024676221);
    assert(fib(79) == 23416728348467685);
    assert(fib(80) == 37889062373143906);
    assert(fib(81) == 61305790721611591);
    assert(fib(82) == 99194853094755497);
    assert(fib(83) == 160500643816367088);
    assert(fib(84) == 259695496911122585);
    assert(fib(85) == 420196140727489673);
    assert(fib(86) == 679891637638612258);
    assert(fib(87) == 1100087778366101931);
    assert(fib(88) == 1779979416004714189);
    assert(fib(89) == 2880067194370816120);
    assert(fib(90) == 4660046610375530309);
    assert(fib(91) == 7540113804746346429);
    assert(fib(92) == 12200160415121876738);
}

proof fn lemma_fib_92_fits()
    ensures
        fib(92) <= u64::MAX,
{
    lemma_fib_values();
}

/// From index 93 on, Fibonacci numbers exceed `u64::MAX`.
pub proof fn lemma_fib_past_u64(n: nat)
    requires
        n > 92,
    ensures
        fib(n) > u64::MAX,
{
    lemma_fib_values();
    assert(fib(93) == fib(92) + fib(91));
    lemma_fib_monotonic(93, n);
}

/// Returns `fib(n)`; the largest `n` whose value fits in a `u64` is 92.
pub fn fibonacci(n: u64) -> (r: u64)
    requires
        n <= MAX_FIB_INDEX,
    ensures
        r == fib(n as nat),
{
    if n < 2 {
        return 1;
    }
    let mut last: u64 = 1;
    let mut curr: u64 = 1;
    let mut i: u64 = 1;
    while i < n
        invariant
            1 <= i <= n <= MAX_FIB_INDEX,
            curr == fib(i as nat),
            last == fib((i - 1) as nat),
        decreases n - i,
    {
        proof {
            lemma_fib_92_fits();
            lemma_fib_monotonic((i + 1) as nat, 92);
        }
        let sum = last + curr;
        last = curr;
        curr = sum;
        i = i + 1;
    }
    curr
}

/// Whether account `i` of `n` is a writable slot by the header's counts:
/// a writable signer, or a writable non-signer.
pub open spec fn writable_slot(h: MessageHeader, n: int, i: int) -> bool {
    i < h.num_required_signatures - h.num_readonly_signed_accounts || (i
        >= h.num_required_signatures && i < n - h.num_readonly_unsigned_accounts)
}

/// Whether account `i` is a signer.
pub open spec fn signer_slot(h: MessageHeader, i: int) -> bool {
    i < h.num_required_signatures
}

/// Whether every account key of the message decodes to a public key.
pub open spec fn keys_decode(m: RawMessage) -> bool {
    forall|k: int| 0 <= k < m.account_keys@.len() ==> (#[trigger] decoded_pubkey(m.account_keys@[k]@)) is Some
}

/// The bytes of account key `i` (empty when it does not decode).
pub open spec fn key_bytes(m: RawMessage, i: int) -> Seq<u8> {
    match decoded_pubkey(m.account_keys@[i]@) {
        Some(k) => k,
        None => Seq::empty(),
    }
}

/// Whether some instruction invokes account `i` as its program.
pub open spec fn called_as_program(m: RawMessage, i: int) -> bool {
    exists|j: int| 0 <= j < m.instructions@.len() && #[trigger] m.instructions@[j].program_id_index == i as u8
}

/// Whether the upgradeable loader is among the message's accounts.
pub open spec fn loader_present(m: RawMessage) -> bool {
    exists|k: int| 0 <= k < m.account_keys@.len() && upgradeable_loader_key(#[trigger] key_bytes(m, k))
}

/// Whether account `i` is demoted to read-only for being invoked as a program.
pub open spec fn demoted(m: RawMessage, i: int) -> bool {
    called_as_program(m, i) && !loader_present(m)
}

/// The chain's writable flag of account `i`.
pub open spec fn account_writable(m: RawMessage, i: int) -> bool {
    &&& writable_slot(m.header, m.account_keys@.len() as int, i)
    &&& !reserved_key(key_bytes(m, i))
    &&& !demoted(m, i)
}

/// Decodes every account key of the message.
pub(crate) fn decode_keys(m: &RawMessage) -> (r: Result<Vec<[u8; 32]>, ParsePubkeyError>)
    ensures
        r is Ok <==> keys_decode(*m),
        r matches Ok(ks) ==> ks@.len() == m.account_keys@.len() && forall|k: int|
            0 <= k < ks@.len() ==> (#[trigger] ks@[k])@ == key_bytes(*m, k),
{
    let mut ks: Vec<[u8; 32]> = Vec::new();
    let mut i: usize = 0;
    while i < m.account_keys.len()
        invariant
            i <= m.account_keys@.len(),
            ks@.len() == i,
            forall|k: int| 0 <= k < i ==> (#[trigger] decoded_pubkey(m.account_keys@[k]@)) is Some,
            forall|k: int| 0 <= k < i ==> (#[trigger] ks@[k])@ == key_bytes(*m, k),
        decreases m.account_keys@.len() - i,
    {
        match decode_pubkey(m.account_keys[i].as_str()) {
            Ok(k) => {
                ks.push(k);
            },
            Err(e) => {
                return Err(e);
            },
        }
        i = i + 1;
    }
    Ok(ks)
}

/// Whether the upgradeable loader is among the decoded keys.
pub(crate) fn has_upgradeable_loader(m: &RawMessage, ks: &Vec<[u8; 32]>) -> (r: bool)
    requires
        ks@.len() == m.account_keys@.len(),
        forall|k: int| 0 <= k < ks@.len() ==> (#[trigger] ks@[k])@ == key_bytes(*m, k),
    ensures
        r == loader_present(*m),
{
    let mut k: usize = 0;
    while k < ks.len()
        invariant
            k <= ks@.len() == m.account_keys@.len(),
            forall|j: int| 0 <= j < ks@.len() ==> (#[trigger] ks@[j])@ == key_bytes(*m, j),
            forall|j: int| 0 <= j < k ==> !upgradeable_loader_key(#[trigger] key_bytes(*m, j)),
        decreases ks@.len() - k,
    {
        if is_upgradeable_loader(&ks[k]) {
            return true;
        }
        k = k + 1;
    }
    false
}

/// Whether some instruction invokes account `index` as its program.
fn is_called_as_program(index: usize, m: &RawMessage) -> (r: bool)
    ensures
        r == called_as_program(*m, index as int),
{
    let mut j: usize = 0;
    while j < m.instructions.len()
        invariant
            j <= m.instructions@.len(),
            forall|q: int| 0 <= q < j ==> #[trigger] m.instructions@[q].program_id_index != index as u8,
        decreases m.instructions@.len() - j,
    {
        if m.instructions[j].program_id_index == index as u8 {
            return true;
        }
        j = j + 1;
    }
    false
}

/// The writable flag of account `index`, from the decoded keys and whether
/// the upgradeable loader is present.
pub(crate) fn writable_flag(index: usize, m: &RawMessage, ks: &Vec<[u8; 32]>, loader: bool) -> (r: bool)
    requires
        index < m.account_keys@.len(),
        ks@.len() == m.account_keys@.len(),
        forall|k: int| 0 <= k < ks@.len() ==> (#[trigger] ks@[k])@ == key_bytes(*m, k),
        loader == loader_present(*m),
    ensures
        r == account_writable(*m, index as int),
{
    let h = m.header;
    let n = m.account_keys.len();
    let nrs = h.num_required_signatures as usize;
    let nros = h.num_readonly_signed_accounts as usize;
    let nrou = h.num_readonly_unsigned_accounts as usize;
    let slot = (nros <= nrs && index < nrs - nros) || (index >= nrs && nrou <= n && index < n - nrou);
    if !slot {
        return false;
    }
    if is_reserved_key(&ks[index]) {
        return false;
    }
    !(is_called_as_program(index, m) && !loader)
}

/// Checks if account `index` is writable, as the chain derives it; fails when
/// an account key of the message does not decode.
pub fn is_acc_writable(index: usize, msg: &RawMessage) -> (r: Result<bool, ParsePubkeyError>)
    requires
        index < msg.account_keys@.len(),
    ensures
        r is Ok <==> keys_decode(*msg),
        r matches Ok(w) ==> w == account_writable(*msg, index as int),
{
    let ks = decode_keys(msg)?;
    let loader = has_upgradeable_loader(msg, &ks);
    Ok(writable_flag(index, msg, &ks, loader))
}

/// Checks if account `index` is a signer.
pub fn is_acc_signer(index: usize, msg: &RawMessage) -> (r: bool)
    ensures
        r == signer_slot(msg.header, index as int),
{
    index < msg.header.num_required_signatures as usize
}

} // verus!

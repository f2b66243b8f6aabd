//! Traceability: case traces, lot traces and the grouping and tallying of hash-chain
//! verification.
use vstd::prelude::*;
use vstd::utf8::encode_utf8;
use crate::signature::{hex_decode, spec_hex_decode};

verus! {

/// The identifiers of the entries whose check failed, in order.
pub open spec fn failed_ids(checks: Seq<(u128, bool)>) -> Seq<u128>
    decreases checks.len(),
{
    if checks.len() == 0 {
        seq![]
    } else {
        let rest = failed_ids(checks.drop_last());
        if checks.last().1 {
            rest
        } else {
            rest.push(checks.last().0)
        }
    }
}

/// Whether every entry's check passed.
pub open spec fn all_passed(checks: Seq<(u128, bool)>) -> bool {
    forall|i: int| 0 <= i < checks.len() ==> (#[trigger] checks[i]).1
}

/// No failed identifier exactly when every check passed.
proof fn lemma_failed_ids_empty(checks: Seq<(u128, bool)>)
    ensures
        (failed_ids(checks).len() == 0) == all_passed(checks),
    decreases checks.len(),
{
    if checks.len() > 0 {
        lemma_failed_ids_empty(checks.drop_last());
        assert forall|i: int| 0 <= i < checks.len() - 1 implies checks.drop_last()[i] == checks[i] by {}
        if all_passed(checks) {
            assert(checks[checks.len() - 1].1);
            assert forall|i: int| 0 <= i < checks.drop_last().len() implies (#[trigger] checks.drop_last()[i]).1 by {
                assert(checks[i].1);
            }
        }
        if all_passed(checks.drop_last()) && checks.last().1 {
            assert forall|i: int| 0 <= i < checks.len() implies (#[trigger] checks[i]).1 by {
                if i < checks.len() - 1 {
                    assert(checks.drop_last()[i].1);
                }
            }
        }
    }
}

fn collect_failed(checks: &[(u128, bool)]) -> (res: Vec<u128>)
    ensures
        res@ == failed_ids(checks@),
{
    let mut out: Vec<u128> = Vec::new();
    let mut i: usize = 0;
    while i < checks.len()
        invariant
            0 <= i <= checks@.len(),
            out@ == failed_ids(checks@.take(i as int)),
        decreases checks@.len() - i,
    {
        proof {
            assert(checks@.take(i + 1).drop_last() =~= checks@.take(i as int));
        }
        let (id, ok) = checks[i];
        if !ok {
            out.push(id);
        }
        i = i + 1;
    }
    proof {
        assert(checks@.take(checks@.len() as int) =~= checks@);
    }
    out
}

/// Integrity summary of a case trace from each event's identifier and whether its hash-chain
/// check passed: whether every event passed, and the events that did not.
pub fn summarize_case_trace(events: &[(u128, bool)]) -> (res: (bool, Vec<u128>))
    ensures
        res.0 == all_passed(events@),
        res.1@ == failed_ids(events@),
        res.0 == (res.1@.len() == 0),
{
    let broken = collect_failed(events);
    proof {
        lemma_failed_ids_empty(events@);
    }
    let integrity = broken.len() == 0;
    (integrity, broken)
}

/// The lots of a lot graph that have nonconformances, in the graph's order.
pub open spec fn nonconforming_lots(lots: Seq<(String, i64)>) -> Seq<String>
    decreases lots.len(),
{
    if lots.len() == 0 {
        seq![]
    } else {
        let rest = nonconforming_lots(lots.drop_last());
        if lots.last().1 > 0 {
            rest.push(lots.last().0)
        } else {
            rest
        }
    }
}

/// The nonconforming lots of a traced lot graph, from each lot of the graph with its number
/// of nonconformances.
pub fn nonconformance_lot_ids(lots: Vec<(String, i64)>) -> (res: Vec<String>)
    ensures
        res@ == nonconforming_lots(lots@),
{
    let ghost all = lots@;
    let mut out: Vec<String> = Vec::new();
    for lot in it: lots
        invariant
            it.seq() == all,
            out@ == nonconforming_lots(all.take(it.index() as int)),
    {
        proof {
            assert(all.take(it.index() + 1).drop_last() =~= all.take(it.index() as int));
        }
        let (id, count) = lot;
        if count > 0 {
            out.push(id);
        }
    }
    proof {
        assert(all.take(all.len() as int) =~= all);
    }
    out
}

/// The largest of a sequence of levels (0 for none).
pub open spec fn max_level(levels: Seq<u32>) -> u32
    decreases levels.len(),
{
    if levels.len() == 0 {
        0
    } else {
        let m = max_level(levels.drop_last());
        if levels.last() > m {
            levels.last()
        } else {
            m
        }
    }
}

/// The depth of a lot trace: the largest number of levels any lot of the graph lies back
/// from the traced lot.
pub fn trace_depth(levels: &[u32]) -> (res: u32)
    ensures
        res == max_level(levels@),
        forall|i: int| 0 <= i < levels@.len() ==> levels@[i] <= res,
{
    let mut m: u32 = 0;
    let mut i: usize = 0;
    while i < levels.len()
        invariant
            0 <= i <= levels@.len(),
            m == max_level(levels@.take(i as int)),
            forall|j: int| 0 <= j < i ==> levels@[j] <= m,
        decreases levels@.len() - i,
    {
        proof {
            assert(levels@.take(i + 1).drop_last() =~= levels@.take(i as int));
        }
        if levels[i] > m {
            m = levels[i];
        }
        i = i + 1;
    }
    proof {
        assert(levels@.take(levels@.len() as int) =~= levels@);
    }
    m
}

/// A 32-byte hash column: the bytes when there are exactly 32 of them, zeros otherwise.
pub fn hash32_or_zero(bytes: &[u8]) -> (res: [u8; 32])
    ensures
        bytes@.len() == 32 ==> res@ == bytes@,
        bytes@.len() != 32 ==> res@ == Seq::new(32, |_i: int| 0u8),
{
    let mut out = [0u8; 32];
    if bytes.len() == 32 {
        let mut i: usize = 0;
        while i < 32
            invariant
                bytes@.len() == 32,
                0 <= i <= 32,
                forall|j: int| 0 <= j < i ==> out@[j] == bytes@[j],
            decreases 32 - i,
        {
            out[i] = bytes[i];
            i = i + 1;
        }
        proof {
            assert(out@ =~= bytes@);
        }
    } else {
        proof {
            assert(out@ =~= Seq::new(32, |_i: int| 0u8));
        }
    }
    out
}

/// The hash a chain continues from: the stored hex hash when it decodes to 32 bytes,
/// otherwise the chain's genesis hash.
pub open spec fn spec_chain_tip(stored_hex: Option<Seq<char>>, genesis: Seq<u8>) -> Seq<u8> {
    match stored_hex {
        Some(h) => match spec_hex_decode(encode_utf8(h)) {
            Some(b) => if b.len() == 32 { b } else { genesis },
            None => genesis,
        },
        None => genesis,
    }
}

/// Decodes the stored hex hash of a chain's last block; a missing, undecodable or
/// wrong-length value gives the genesis hash.
pub fn chain_tip(stored_hex: Option<&str>, genesis: [u8; 32]) -> (res: [u8; 32])
    ensures
        res@ == spec_chain_tip(
            match stored_hex {
                Some(h) => Some(h@),
                None => None,
            },
            genesis@,
        ),
{
    let h = match stored_hex {
        Some(h) => h,
        None => {
            return genesis;
        },
    };
    let bytes = match hex_decode(h.as_bytes()) {
        Some(b) => b,
        None => {
            return genesis;
        },
    };
    if bytes.len() != 32 {
        return genesis;
    }
    let mut out = genesis;
    let mut i: usize = 0;
    while i < 32
        invariant
            bytes@.len() == 32,
            0 <= i <= 32,
            forall|j: int| 0 <= j < i ==> out@[j] == bytes@[j],
        decreases 32 - i,
    {
        out[i] = bytes[i];
        i = i + 1;
    }
    proof {
        assert(out@ =~= bytes@);
    }
    out
}

/// Index of the last of `keys` that equals `key`, or -1.
pub open spec fn find_group(keys: Seq<u128>, key: u128) -> int
    decreases keys.len(),
{
    if keys.len() == 0 {
        -1
    } else if keys.last() == key {
        keys.len() - 1
    } else {
        find_group(keys.drop_last(), key)
    }
}

/// The distinct case identifiers of `rows`, in order of first appearance.
pub open spec fn group_keys<T>(rows: Seq<(u128, T)>) -> Seq<u128>
    decreases rows.len(),
{
    if rows.len() == 0 {
        seq![]
    } else {
        let keys = group_keys(rows.drop_last());
        if find_group(keys, rows.last().0) >= 0 {
            keys
        } else {
            keys.push(rows.last().0)
        }
    }
}

/// The items of `rows` whose key is `key`, in their order.
pub open spec fn items_with_key<T>(rows: Seq<(u128, T)>, key: u128) -> Seq<T>
    decreases rows.len(),
{
    if rows.len() == 0 {
        seq![]
    } else {
        let rest = items_with_key(rows.drop_last(), key);
        if rows.last().0 == key {
            rest.push(rows.last().1)
        } else {
            rest
        }
    }
}

/// Whether no identifier occurs twice.
pub open spec fn distinct_keys(keys: Seq<u128>) -> bool {
    forall|a: int, b: int| 0 <= a < b < keys.len() ==> keys[a] != keys[b]
}

proof fn lemma_find_group_bounds(keys: Seq<u128>, key: u128)
    ensures
        -1 <= find_group(keys, key) < keys.len(),
        find_group(keys, key) >= 0 ==> keys[find_group(keys, key)] == key,
        find_group(keys, key) < 0 ==> forall|i: int| 0 <= i < keys.len() ==> keys[i] != key,
    decreases keys.len(),
{
    if keys.len() > 0 {
        lemma_find_group_bounds(keys.drop_last(), key);
        assert forall|i: int| 0 <= i < keys.len() - 1 implies keys.drop_last()[i] == keys[i] by {}
    }
}

fn find_key(keys: &Vec<u128>, key: u128) -> (res: Option<usize>)
    ensures
        match res {
            Some(i) => i as int == find_group(keys@, key),
            None => find_group(keys@, key) == -1,
        },
{
    let mut j: usize = keys.len();
    proof {
        assert(keys@.take(j as int) =~= keys@);
    }
    while j > 0
        invariant
            j <= keys@.len(),
            find_group(keys@, key) == find_group(keys@.take(j as int), key),
        decreases j,
    {
        proof {
            assert(keys@.take(j as int).drop_last() =~= keys@.take(j - 1));
        }
        if keys[j - 1] == key {
            return Some(j - 1);
        }
        j = j - 1;
    }
    proof {
        assert(keys@.take(0) =~= Seq::<u128>::empty());
    }
    None
}

/// Groups the blocks of a verification run by case: the distinct cases in order of first
/// appearance, each with its blocks in their original order.
pub fn group_by_case<T>(rows: Vec<(u128, T)>) -> (res: Vec<(u128, Vec<T>)>)
    ensures
        res@.len() == group_keys(rows@).len(),
        distinct_keys(group_keys(rows@)),
        forall|g: int| 0 <= g < res@.len() ==> {
            &&& (#[trigger] res@[g]).0 == group_keys(rows@)[g]
            &&& res@[g].1@ == items_with_key(rows@, res@[g].0)
        },
{
    let ghost all = rows@;
    let mut keys: Vec<u128> = Vec::new();
    let mut members: Vec<Vec<T>> = Vec::new();
    for row in it: rows
        invariant
            it.seq() == all,
            keys@ == group_keys(all.take(it.index() as int)),
            distinct_keys(keys@),
            members@.len() == keys@.len(),
            forall|g: int| 0 <= g < keys@.len() ==> (#[trigger] members@[g])@ == items_with_key(
                all.take(it.index() as int),
                keys@[g],
            ),
            forall|k: u128| (forall|g: int| 0 <= g < keys@.len() ==> keys@[g] != k)
                ==> (#[trigger] items_with_key(all.take(it.index() as int), k)).len() == 0,
    {
        let ghost p = all.take(it.index() as int);
        let ghost p2 = all.take(it.index() + 1);
        proof {
            assert(p2.drop_last() =~= p);
            assert(p2.last() == row);
        }
        let (key, value) = row;
        proof {
            lemma_find_group_bounds(keys@, key);
        }
        match find_key(&keys, key) {
            Some(i) => {
                let ghost old_members = members@;
                let mut m = members.remove(i);
                m.push(value);
                members.insert(i, m);
                proof {
                    assert forall|g: int| 0 <= g < keys@.len() implies (#[trigger] members@[g])@
                        == items_with_key(p2, keys@[g]) by {
                        if g == i {
                        } else {
                            assert(members@[g] == old_members[g]);
                            assert(keys@[g] != key);
                        }
                    }
                    assert forall|k: u128| (forall|g: int| 0 <= g < keys@.len() ==> keys@[g] != k)
                        implies (#[trigger] items_with_key(p2, k)).len() == 0 by {
                        assert(keys@[i as int] == key);
                        assert(k != key);
                        assert(items_with_key(p, k).len() == 0);
                    }
                }
            },
            None => {
                let mut m: Vec<T> = Vec::new();
                m.push(value);
                proof {
                    assert(items_with_key(p, key).len() == 0);
                }
                let ghost old_keys = keys@;
                keys.push(key);
                members.push(m);
                proof {
                    assert forall|g: int| 0 <= g < keys@.len() implies (#[trigger] members@[g])@
                        == items_with_key(p2, keys@[g]) by {
                        if g < keys@.len() - 1 {
                            assert(keys@[g] != key);
                        } else {
                            assert(members@[g]@ =~= seq![value]);
                            assert(items_with_key(p, key) =~= Seq::<T>::empty());
                        }
                    }
                    assert forall|k: u128| (forall|g: int| 0 <= g < keys@.len() ==> keys@[g] != k)
                        implies (#[trigger] items_with_key(p2, k)).len() == 0 by {
                        assert(keys@[keys@.len() - 1] == key);
                        assert(k != key);
                        assert forall|g: int| 0 <= g < old_keys.len() implies old_keys[g] != k by {
                            assert(keys@[g] == old_keys[g]);
                        }
                        assert(items_with_key(p, k).len() == 0);
                    }
                }
            },
        }
    }
    proof {
        assert(all.take(all.len() as int) =~= all);
    }
    let mut res: Vec<(u128, Vec<T>)> = Vec::new();
    let ghost final_members = members@;
    let mut g: usize = 0;
    while members.len() > 0
        invariant
            final_members.len() == keys@.len(),
            keys@ == group_keys(all),
            g <= keys@.len(),
            res@.len() == g,
            members@ == final_members.subrange(g as int, final_members.len() as int),
            forall|h: int| 0 <= h < keys@.len() ==> (#[trigger] final_members[h])@ == items_with_key(all, keys@[h]),
            forall|h: int| 0 <= h < res@.len() ==> {
                &&& (#[trigger] res@[h]).0 == keys@[h]
                &&& res@[h].1@ == items_with_key(all, keys@[h])
            },
        decreases members@.len(),
    {
        let m = members.remove(0);
        proof {
            assert(m == final_members[g as int]);
        }
        let n = keys.len();
        let k = keys[g];
        res.push((k, m));
        assert(g < n);
        g = g + 1;
        proof {
            assert(members@ =~= final_members.subrange(g as int, final_members.len() as int));
        }
    }
    res
}

/// Result of a hash-chain verification run.
#[derive(Debug, Clone, PartialEq, Eq)]
pub struct HashChainTally {
    /// Blocks examined.
    pub verified_count: i64,
    /// Cases whose chain is broken.
    pub broken_count: i64,
    /// The cases whose chain is broken.
    pub broken_case_ids: Vec<u128>,
}

proof fn lemma_failed_ids_len(checks: Seq<(u128, bool)>)
    ensures
        failed_ids(checks).len() <= checks.len(),
    decreases checks.len(),
{
    if checks.len() > 0 {
        lemma_failed_ids_len(checks.drop_last());
    }
}

/// Tallies a verification run over `block_count` blocks from each case's outcome (case
/// identifier and whether its chain verified).
pub fn tally_chain_verification(block_count: usize, outcomes: &[(u128, bool)]) -> (res: HashChainTally)
    requires
        block_count <= i64::MAX,
        outcomes@.len() <= i64::MAX,
    ensures
        res.verified_count == block_count,
        res.broken_case_ids@ == failed_ids(outcomes@),
        res.broken_count == res.broken_case_ids@.len(),
        (res.broken_count == 0) == all_passed(outcomes@),
{
    let broken = collect_failed(outcomes);
    proof {
        lemma_failed_ids_len(outcomes@);
        lemma_failed_ids_empty(outcomes@);
    }
    HashChainTally {
        verified_count: block_count as i64,
        broken_count: broken.len() as i64,
        broken_case_ids: broken,
    }
}

/// Request of a manual hash-chain verification.
#[derive(Debug, Clone, Copy, PartialEq, Eq)]
pub struct HashChainVerifyRequest {
    /// Case to verify; all cases when absent.
    pub case_id: Option<u128>,
    /// Most blocks to read; every block when absent.
    pub limit: Option<i64>,
}

} // verus!

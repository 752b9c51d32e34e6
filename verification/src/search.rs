//! Exhaustive search: which algorithms of a table turn a seed into a known key.

use vstd::prelude::*;
use crate::error::KeyError;
use crate::key::{calculate_key_in_format, key_in_format, OpcodePolicy};
use crate::table::{detect_format, format_of_len, AlgorithmTable, TableFormat};

verus! {

/// Number of algorithm indices that a search visits.
///
/// The indices are `0` up to, not including, the number of whole records in the
/// table; an index is one byte, so at most 256 are visited. Index 0 is visited
/// like the others and answers with the bitwise NOT of the seed. An empty table
/// holds no record, and nothing is visited.
pub open spec fn scan_limit(len: nat, format: TableFormat) -> nat {
    if format.spec_slot_count(len) < 256 {
        format.spec_slot_count(len)
    } else {
        256
    }
}

/// Whether algorithm `index` turns `seed` into `known_key`. An algorithm whose
/// calculation fails does not.
pub open spec fn produces(
    seed: u16,
    known_key: u16,
    index: u8,
    table: Seq<u8>,
    format: TableFormat,
    policy: OpcodePolicy,
) -> bool {
    key_in_format(seed, index, table, format, policy) == Ok::<u16, KeyError>(known_key)
}

/// The indices below `n` that produce `known_key`, in increasing order.
pub open spec fn matches_below(
    n: nat,
    seed: u16,
    known_key: u16,
    table: Seq<u8>,
    format: TableFormat,
    policy: OpcodePolicy,
) -> Seq<u8>
    decreases n,
{
    if n == 0 {
        Seq::empty()
    } else {
        let earlier = matches_below((n - 1) as nat, seed, known_key, table, format, policy);
        if produces(seed, known_key, (n - 1) as u8, table, format, policy) {
            earlier.push((n - 1) as u8)
        } else {
            earlier
        }
    }
}

/// What a search in the given layout returns.
pub open spec fn matches_in_format(
    seed: u16,
    known_key: u16,
    table: Seq<u8>,
    format: TableFormat,
    policy: OpcodePolicy,
) -> Seq<u8> {
    matches_below(scan_limit(table.len(), format), seed, known_key, table, format, policy)
}

/// What a search returns when the layout is inferred from the length of the table.
pub open spec fn matches_of(seed: u16, known_key: u16, table: Seq<u8>, policy: OpcodePolicy) -> Seq<
    u8,
> {
    matches_in_format(seed, known_key, table, format_of_len(table.len()), policy)
}

/// Searches a table of the given layout for every algorithm that turns `seed`
/// into `known_key`.
///
/// An algorithm whose calculation fails is passed over and the search goes on.
pub fn brute_force_in_format(
    seed: u16,
    known_key: u16,
    table: &[u8],
    format: TableFormat,
    policy: OpcodePolicy,
) -> (found: Vec<u8>)
    ensures
        found@ == matches_in_format(seed, known_key, table@, format, policy),
{
    let slots = table.len() / format.stride();
    let limit: usize = if slots < 256 {
        slots
    } else {
        256
    };
    let mut found: Vec<u8> = Vec::new();
    let mut next: usize = 0;
    while next < limit
        invariant
            next <= limit <= 256,
            limit == scan_limit(table@.len(), format),
            found@ == matches_below(next as nat, seed, known_key, table@, format, policy),
        decreases limit - next,
    {
        let index = next as u8;
        match calculate_key_in_format(seed, index, table, format, policy) {
            Ok(key) => {
                if key == known_key {
                    found.push(index);
                }
            },
            Err(_) => {},
        }
        next += 1;
    }
    found
}

/// Searches a table for every algorithm that turns `seed` into `known_key`, under
/// the given unknown-opcode policy and with the layout inferred from the length
/// of the table.
pub fn brute_force_with_policy(seed: u16, known_key: u16, table: &[u8], policy: OpcodePolicy) -> (found:
    Vec<u8>)
    ensures
        found@ == matches_of(seed, known_key, table@, policy),
{
    brute_force_in_format(seed, known_key, table, detect_format(table), policy)
}

/// Searches a table for every algorithm that turns `seed` into `known_key`, under
/// the strict policy: a record with an unknown opcode produces no key and is
/// passed over.
pub fn brute_force(seed: u16, known_key: u16, table: &[u8]) -> (found: Vec<u8>)
    ensures
        found@ == matches_of(seed, known_key, table@, OpcodePolicy::Strict),
{
    brute_force_with_policy(seed, known_key, table, OpcodePolicy::Strict)
}

impl AlgorithmTable {
    /// Searches this table for every algorithm that turns `seed` into
    /// `known_key`, in the layout of the table and under the given
    /// unknown-opcode policy.
    pub fn search(&self, seed: u16, known_key: u16, policy: OpcodePolicy) -> (found: Vec<u8>)
        ensures
            found@ == matches_in_format(seed, known_key, self@.bytes, self@.format, policy),
    {
        brute_force_in_format(seed, known_key, self.as_bytes(), self.format(), policy)
    }
}

/// The result of a search holds an index exactly when the index is below the
/// bound and produces the key; it is strictly increasing, so no index occurs
/// twice.
pub proof fn lemma_matches_below(
    n: nat,
    seed: u16,
    known_key: u16,
    table: Seq<u8>,
    format: TableFormat,
    policy: OpcodePolicy,
)
    requires
        n <= 256,
    ensures
        forall|a: u8|
            #[trigger] matches_below(n, seed, known_key, table, format, policy).contains(a) <==> (a
                < n && produces(seed, known_key, a, table, format, policy)),
        forall|i: int, j: int|
            0 <= i < j < matches_below(n, seed, known_key, table, format, policy).len()
                ==> matches_below(n, seed, known_key, table, format, policy)[i] < matches_below(
                n,
                seed,
                known_key,
                table,
                format,
                policy,
            )[j],
        matches_below(n, seed, known_key, table, format, policy).len() <= n,
    decreases n,
{
    let all = matches_below(n, seed, known_key, table, format, policy);
    if n > 0 {
        let earlier = matches_below((n - 1) as nat, seed, known_key, table, format, policy);
        let last = (n - 1) as u8;
        lemma_matches_below((n - 1) as nat, seed, known_key, table, format, policy);
        if produces(seed, known_key, last, table, format, policy) {
            assert(all == earlier.push(last));
            assert forall|a: u8| #[trigger] all.contains(a) implies a < n && produces(
                seed,
                known_key,
                a,
                table,
                format,
                policy,
            ) by {
                let i = choose|i: int| 0 <= i < all.len() && all[i] == a;
                if i < earlier.len() {
                    assert(earlier[i] == a);
                    assert(earlier.contains(a));
                }
            }
            assert forall|a: u8|
                a < n && produces(seed, known_key, a, table, format, policy) implies #[trigger] all.contains(
                a,
            ) by {
                if a == last {
                    assert(all[earlier.len() as int] == a);
                } else {
                    assert(earlier.contains(a));
                    let i = choose|i: int| 0 <= i < earlier.len() && earlier[i] == a;
                    assert(all[i] == a);
                }
            }
            assert forall|i: int, j: int| 0 <= i < j < all.len() implies all[i] < all[j] by {
                if j == earlier.len() {
                    assert(earlier[i] == all[i]);
                    assert(earlier.contains(earlier[i]));
                } else {
                    assert(earlier[i] == all[i]);
                    assert(earlier[j] == all[j]);
                }
            }
        } else {
            assert(all == earlier);
        }
    }
}

/// A search finds nothing exactly when no visited index produces the key.
pub proof fn lemma_search_empty(
    seed: u16,
    known_key: u16,
    table: Seq<u8>,
    format: TableFormat,
    policy: OpcodePolicy,
)
    ensures
        matches_in_format(seed, known_key, table, format, policy).len() == 0 <==> (forall|a: u8|
            a < scan_limit(table.len(), format) ==> !produces(
                seed,
                known_key,
                a,
                table,
                format,
                policy,
            )),
{
    let found = matches_in_format(seed, known_key, table, format, policy);
    lemma_matches_below(scan_limit(table.len(), format), seed, known_key, table, format, policy);
    if found.len() > 0 {
        assert(found.contains(found[0]));
    }
    if found.len() == 0 {
        assert forall|a: u8| a < scan_limit(table.len(), format) implies !produces(
            seed,
            known_key,
            a,
            table,
            format,
            policy,
        ) by {
            if produces(seed, known_key, a, table, format, policy) {
                assert(found.contains(a));
            }
        }
    }
}

/// Every visited index that produces the key is returned, not only the first:
/// two distinct such indices both occur in the result, the smaller one first.
pub proof fn lemma_search_keeps_collisions(
    seed: u16,
    known_key: u16,
    table: Seq<u8>,
    format: TableFormat,
    policy: OpcodePolicy,
    a: u8,
    b: u8,
)
    requires
        a < b < scan_limit(table.len(), format),
        produces(seed, known_key, a, table, format, policy),
        produces(seed, known_key, b, table, format, policy),
    ensures
        matches_in_format(seed, known_key, table, format, policy).contains(a),
        matches_in_format(seed, known_key, table, format, policy).contains(b),
        matches_in_format(seed, known_key, table, format, policy).len() >= 2,
        matches_in_format(seed, known_key, table, format, policy).index_of(a) < matches_in_format(
            seed,
            known_key,
            table,
            format,
            policy,
        ).index_of(b),
{
    let found = matches_in_format(seed, known_key, table, format, policy);
    lemma_matches_below(scan_limit(table.len(), format), seed, known_key, table, format, policy);
    assert(found.contains(a));
    assert(found.contains(b));
    let i = found.index_of(a);
    let j = found.index_of(b);
    assert(0 <= i < found.len() && found[i] == a);
    assert(0 <= j < found.len() && found[j] == b);
    if j <= i {
        if j < i {
            assert(found[j] < found[i]);
        }
    }
}

} // verus!

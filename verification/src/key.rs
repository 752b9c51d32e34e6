//! Key calculation: a record of operations run over a seed.

use vstd::prelude::*;
use crate::error::KeyError;
use crate::opcode::{apply, transform, Opcode};
use crate::table::{
    detect_format, format_of_len, operation_at, record_ops, AlgorithmTable, Operation, TableFormat,
};

verus! {

/// What to do with an opcode byte that is neither zero nor one of the eleven
/// defined codes.
#[derive(Debug, Clone, Copy, PartialEq, Eq, Structural)]
pub enum OpcodePolicy {
    /// The calculation fails with `UnknownOpcode`.
    Strict,
    /// The operation is skipped and the calculation goes on.
    Lenient,
}

/// The bitwise NOT of a seed: the key of the reserved algorithm 0.
pub open spec fn inverted(seed: u16) -> u16 {
    (65535 - seed) as u16
}

/// Result of running `ops` in order, starting from the accumulator `acc`.
///
/// An opcode byte of zero ends the run at once with the accumulator as it stands;
/// nothing after it is looked at. A byte that encodes no operation fails the run
/// under the strict policy and is skipped under the lenient one.
pub open spec fn run_ops(acc: u16, ops: Seq<Operation>, policy: OpcodePolicy) -> Result<
    u16,
    KeyError,
>
    decreases ops.len(),
{
    if ops.len() == 0 {
        Ok(acc)
    } else {
        let op = ops[0];
        let rest = ops.subrange(1, ops.len() as int);
        if op.opcode == 0 {
            Ok(acc)
        } else {
            match Opcode::spec_from_byte(op.opcode) {
                Some(code) => run_ops(
                    transform(code, acc, op.operand_high, op.operand_low),
                    rest,
                    policy,
                ),
                None => match policy {
                    OpcodePolicy::Strict => Err(KeyError::UnknownOpcode(op.opcode)),
                    OpcodePolicy::Lenient => run_ops(acc, rest, policy),
                },
            }
        }
    }
}

/// The key of algorithm `index` for `seed`, read from `table` in the given layout.
///
/// Algorithm 0 is the bitwise NOT of the seed and never looks at the table. For
/// every other index the record must fit, and its operations are run over the seed.
pub open spec fn key_in_format(
    seed: u16,
    index: u8,
    table: Seq<u8>,
    format: TableFormat,
    policy: OpcodePolicy,
) -> Result<u16, KeyError> {
    if index == 0 {
        Ok(inverted(seed))
    } else if !format.record_fits(table.len(), index) {
        Err(KeyError::OutOfBounds)
    } else {
        run_ops(seed, record_ops(table, format, index), policy)
    }
}

/// The key of algorithm `index` for `seed`, with the layout inferred from the
/// length of `table`.
pub open spec fn key_of(seed: u16, index: u8, table: Seq<u8>, policy: OpcodePolicy) -> Result<
    u16,
    KeyError,
> {
    key_in_format(seed, index, table, format_of_len(table.len()), policy)
}

/// Runs decoded operations over an accumulator.
pub fn run_operations(seed: u16, ops: &[Operation], policy: OpcodePolicy) -> (r: Result<
    u16,
    KeyError,
>)
    ensures
        r == run_ops(seed, ops@, policy),
{
    let mut acc = seed;
    let mut k: usize = 0;
    assert(ops@.subrange(0, ops@.len() as int) =~= ops@);
    while k < ops.len()
        invariant
            k <= ops@.len(),
            run_ops(seed, ops@, policy) == run_ops(
                acc,
                ops@.subrange(k as int, ops@.len() as int),
                policy,
            ),
        decreases ops@.len() - k,
    {
        let op = ops[k];
        let ghost tail = ops@.subrange(k as int, ops@.len() as int);
        assert(tail[0] == op);
        assert(tail.subrange(1, tail.len() as int) =~= ops@.subrange(
            k as int + 1,
            ops@.len() as int,
        ));
        if op.opcode == 0 {
            return Ok(acc);
        }
        match Opcode::from_byte(op.opcode) {
            Some(code) => {
                acc = apply(code, acc, op.operand_high, op.operand_low);
            },
            None => match policy {
                OpcodePolicy::Strict => {
                    return Err(KeyError::UnknownOpcode(op.opcode));
                },
                OpcodePolicy::Lenient => {},
            },
        }
        k += 1;
    }
    Ok(acc)
}

/// Computes the key of algorithm `index` for `seed` from a table whose layout and
/// unknown-opcode policy the caller names.
///
/// The operations are read from the table one at a time and in stored order.
pub fn calculate_key_in_format(
    seed: u16,
    index: u8,
    table: &[u8],
    format: TableFormat,
    policy: OpcodePolicy,
) -> (r: Result<u16, KeyError>)
    ensures
        r == key_in_format(seed, index, table@, format, policy),
{
    if index == 0 {
        assert(!seed == 65535 - seed) by (bit_vector);
        return Ok(!seed);
    }
    let offset = format.record_offset(index);
    let count = format.op_count();
    if offset + count * 3 > table.len() {
        return Err(KeyError::OutOfBounds);
    }
    let ghost ops = record_ops(table@, format, index);
    let mut acc = seed;
    let mut k: usize = 0;
    assert(ops.subrange(0, ops.len() as int) =~= ops);
    while k < count
        invariant
            k <= count,
            index != 0,
            count == format.spec_op_count(),
            offset == format.spec_record_offset(index),
            offset + count * 3 <= table@.len(),
            ops == record_ops(table@, format, index),
            run_ops(seed, ops, policy) == run_ops(
                acc,
                ops.subrange(k as int, ops.len() as int),
                policy,
            ),
        decreases count - k,
    {
        let at = offset + 3 * k;
        let opcode = table[at];
        let hh = table[at + 1];
        let ll = table[at + 2];
        let ghost tail = ops.subrange(k as int, ops.len() as int);
        assert(tail[0] == operation_at(table@, offset as nat, k as int));
        assert(tail.subrange(1, tail.len() as int) =~= ops.subrange(
            k as int + 1,
            ops.len() as int,
        ));
        if opcode == 0 {
            return Ok(acc);
        }
        match Opcode::from_byte(opcode) {
            Some(code) => {
                acc = apply(code, acc, hh, ll);
            },
            None => match policy {
                OpcodePolicy::Strict => {
                    return Err(KeyError::UnknownOpcode(opcode));
                },
                OpcodePolicy::Lenient => {},
            },
        }
        k += 1;
    }
    Ok(acc)
}

/// Computes the key of algorithm `index` for `seed` under the given unknown-opcode
/// policy, with the layout inferred from the length of the table.
pub fn calculate_key_with_policy(seed: u16, index: u8, table: &[u8], policy: OpcodePolicy) -> (r:
    Result<u16, KeyError>)
    ensures
        r == key_of(seed, index, table@, policy),
{
    calculate_key_in_format(seed, index, table, detect_format(table), policy)
}

/// Computes the key of algorithm `algo` for `seed` under the strict policy: a byte
/// that encodes no operation, met before any terminating zero, fails the
/// calculation with `UnknownOpcode`.
///
/// Use `calculate_key_with_policy` to choose the lenient policy instead.
pub fn calculate_key(seed: u16, algo: u8, table: &[u8]) -> (r: Result<u16, KeyError>)
    ensures
        r == key_of(seed, algo, table@, OpcodePolicy::Strict),
{
    calculate_key_with_policy(seed, algo, table, OpcodePolicy::Strict)
}

impl AlgorithmTable {
    /// Computes the key of algorithm `index` for `seed` from this table, in the
    /// layout of the table and under the given unknown-opcode policy.
    pub fn calculate(&self, seed: u16, index: u8, policy: OpcodePolicy) -> (r: Result<
        u16,
        KeyError,
    >)
        ensures
            r == key_in_format(seed, index, self@.bytes, self@.format, policy),
    {
        calculate_key_in_format(seed, index, self.as_bytes(), self.format(), policy)
    }
}

/// Algorithm 0 yields the bitwise NOT of the seed for every table, the empty one
/// included, in either layout and under either policy.
pub proof fn lemma_algorithm_zero(
    seed: u16,
    table: Seq<u8>,
    format: TableFormat,
    policy: OpcodePolicy,
)
    ensures
        key_of(seed, 0, table, policy) == Ok::<u16, KeyError>(!seed),
        key_in_format(seed, 0, table, format, policy) == Ok::<u16, KeyError>(!seed),
{
    assert(!seed == 65535 - seed) by (bit_vector);
}

/// For every algorithm but the reserved algorithm 0, the calculation fails with
/// `OutOfBounds` if and only if `index * stride + op_count * 3` exceeds the length
/// of the table.
pub proof fn lemma_out_of_bounds(
    seed: u16,
    index: u8,
    table: Seq<u8>,
    format: TableFormat,
    policy: OpcodePolicy,
)
    requires
        index != 0,
    ensures
        key_in_format(seed, index, table, format, policy) == Err::<u16, KeyError>(
            KeyError::OutOfBounds,
        ) <==> index * format.spec_stride() + format.spec_op_count() * 3 > table.len(),
        key_of(seed, index, table, policy) == Err::<u16, KeyError>(KeyError::OutOfBounds) <==> index
            * format_of_len(table.len()).spec_stride() + format_of_len(
            table.len(),
        ).spec_op_count() * 3 > table.len(),
{
    lemma_run_never_out_of_bounds(seed, record_ops(table, format, index), policy);
    lemma_run_never_out_of_bounds(
        seed,
        record_ops(table, format_of_len(table.len()), index),
        policy,
    );
}

/// Running operations fails only with `UnknownOpcode`, only under the strict
/// policy, and only with a byte that is neither zero nor a defined code.
pub proof fn lemma_run_never_out_of_bounds(acc: u16, ops: Seq<Operation>, policy: OpcodePolicy)
    ensures
        match run_ops(acc, ops, policy) {
            Ok(_) => true,
            Err(KeyError::UnknownOpcode(byte)) => policy == OpcodePolicy::Strict && byte != 0
                && Opcode::spec_from_byte(byte) is None,
            Err(_) => false,
        },
    decreases ops.len(),
{
    if ops.len() > 0 {
        let op = ops[0];
        let rest = ops.subrange(1, ops.len() as int);
        if op.opcode != 0 {
            match Opcode::spec_from_byte(op.opcode) {
                Some(code) => {
                    lemma_run_never_out_of_bounds(
                        transform(code, acc, op.operand_high, op.operand_low),
                        rest,
                        policy,
                    );
                },
                None => {
                    lemma_run_never_out_of_bounds(acc, rest, policy);
                },
            }
        }
    }
}

/// What follows an opcode byte of zero does not matter: the run yields what the
/// operations before the zero yield.
pub proof fn lemma_zero_ends_run(acc: u16, ops: Seq<Operation>, k: int, policy: OpcodePolicy)
    requires
        0 <= k < ops.len(),
        ops[k].opcode == 0,
    ensures
        run_ops(acc, ops, policy) == run_ops(acc, ops.subrange(0, k), policy),
    decreases k,
{
    let before = ops.subrange(0, k);
    if k > 0 {
        let op = ops[0];
        let rest = ops.subrange(1, ops.len() as int);
        assert(before[0] == op);
        assert(before.subrange(1, before.len() as int) =~= rest.subrange(0, k - 1));
        assert(rest[k - 1] == ops[k]);
        if op.opcode != 0 {
            match Opcode::spec_from_byte(op.opcode) {
                Some(code) => {
                    lemma_zero_ends_run(
                        transform(code, acc, op.operand_high, op.operand_low),
                        rest,
                        k - 1,
                        policy,
                    );
                },
                None => {
                    lemma_zero_ends_run(acc, rest, k - 1, policy);
                },
            }
        }
    }
}

/// Under the lenient policy a record that fits always yields a key.
pub proof fn lemma_lenient_never_fails(acc: u16, ops: Seq<Operation>)
    ensures
        run_ops(acc, ops, OpcodePolicy::Lenient) is Ok,
{
    lemma_run_never_out_of_bounds(acc, ops, OpcodePolicy::Lenient);
}

/// Where every opcode byte of a record is zero or a defined code, the two policies
/// agree.
pub proof fn lemma_policies_agree(acc: u16, ops: Seq<Operation>)
    requires
        forall|k: int|
            0 <= k < ops.len() ==> ops[k].opcode == 0 || Opcode::spec_from_byte(
                #[trigger] ops[k].opcode,
            ) is Some,
    ensures
        run_ops(acc, ops, OpcodePolicy::Strict) == run_ops(acc, ops, OpcodePolicy::Lenient),
    decreases ops.len(),
{
    if ops.len() > 0 {
        let op = ops[0];
        let rest = ops.subrange(1, ops.len() as int);
        assert(forall|k: int| 0 <= k < rest.len() ==> rest[k] == ops[k + 1]);
        if op.opcode != 0 {
            match Opcode::spec_from_byte(op.opcode) {
                Some(code) => {
                    lemma_policies_agree(
                        transform(code, acc, op.operand_high, op.operand_low),
                        rest,
                    );
                },
                None => {},
            }
        }
    }
}

} // verus!

//! The Prometheus text exposition format for this library's gauges.
//!
//! A gauge is exposed as three lines: a `# HELP` metadata line, a `# TYPE`
//! metadata line, and a sample line `<name> <value> <timestamp>`. A payload
//! is the three gauges of this library in a fixed order: stable memory,
//! wasm memory, cycles balance. The metric names and help strings are part
//! of the wire contract and must match verbatim (including the help text of
//! the cycles gauge, kept as the scrapers already know it).

use vstd::prelude::*;

use crate::decimal::dec_rep;
use crate::decimal::lemma_dec_rep_nonempty;

verus! {

pub open spec fn stable_memory_name() -> Seq<char> {
    "nx_gov_stable_memory_size_gib"@
}

pub open spec fn wasm_memory_name() -> Seq<char> {
    "nx_gov_wasm_memory_size_gib"@
}

pub open spec fn cycles_balance_name() -> Seq<char> {
    "nx_gov_canister_cycles_balance"@
}

pub open spec fn stable_memory_help() -> Seq<char> {
    "Amount of stable memory used by this canister, in GiB"@
}

pub open spec fn wasm_memory_help() -> Seq<char> {
    "Amount of wasm memory used by this canister, in GiB"@
}

pub open spec fn cycles_balance_help() -> Seq<char> {
    "Amount of wasm memory used by this canister, in GiB"@
}

/// The `# HELP` metadata line of a metric (without its newline).
pub open spec fn help_line(name: Seq<char>, help: Seq<char>) -> Seq<char> {
    "# HELP "@ + name + " "@ + help
}

/// The `# TYPE` metadata line of a gauge (without its newline).
pub open spec fn type_line(name: Seq<char>) -> Seq<char> {
    "# TYPE "@ + name + " gauge"@
}

/// What stands before the timestamp on a sample line.
pub open spec fn sample_prefix(name: Seq<char>, value: Seq<char>) -> Seq<char> {
    name + " "@ + value + " "@
}

/// The sample (data) line of a gauge (without its newline).
pub open spec fn sample_line(name: Seq<char>, value: Seq<char>, ts_millis: nat) -> Seq<char> {
    sample_prefix(name, value) + dec_rep(ts_millis)
}

/// One full gauge record: HELP line, TYPE line, sample line, each
/// newline-terminated.
pub open spec fn gauge_block(
    name: Seq<char>,
    value: Seq<char>,
    help: Seq<char>,
    ts_millis: nat,
) -> Seq<char> {
    help_line(name, help) + "\n"@ + type_line(name) + "\n"@ + sample_line(name, value, ts_millis)
        + "\n"@
}

/// The full payload text: the three gauge records in the fixed order
/// stable memory, wasm memory, cycles balance, all sharing one timestamp.
pub open spec fn metrics_payload(
    stable_gib: Seq<char>,
    wasm_gib: Seq<char>,
    cycles: Seq<char>,
    ts_millis: nat,
) -> Seq<char> {
    gauge_block(stable_memory_name(), stable_gib, stable_memory_help(), ts_millis) + gauge_block(
        wasm_memory_name(),
        wasm_gib,
        wasm_memory_help(),
        ts_millis,
    ) + gauge_block(cycles_balance_name(), cycles, cycles_balance_help(), ts_millis)
}

/// The nine lines of the payload, in payload order, without their
/// terminating newlines.
pub open spec fn metrics_lines(
    stable_gib: Seq<char>,
    wasm_gib: Seq<char>,
    cycles: Seq<char>,
    ts_millis: nat,
) -> Seq<Seq<char>> {
    seq![
        help_line(stable_memory_name(), stable_memory_help()),
        type_line(stable_memory_name()),
        sample_line(stable_memory_name(), stable_gib, ts_millis),
        help_line(wasm_memory_name(), wasm_memory_help()),
        type_line(wasm_memory_name()),
        sample_line(wasm_memory_name(), wasm_gib, ts_millis),
        help_line(cycles_balance_name(), cycles_balance_help()),
        type_line(cycles_balance_name()),
        sample_line(cycles_balance_name(), cycles, ts_millis),
    ]
}

/// The given lines, from index `i` on, each terminated by a newline.
pub open spec fn join_lines_from(lines: Seq<Seq<char>>, i: int) -> Seq<char>
    decreases lines.len() - i,
{
    if i < 0 || i >= lines.len() {
        Seq::empty()
    } else {
        lines[i] + "\n"@ + join_lines_from(lines, i + 1)
    }
}

/// The given lines, each terminated by a newline.
pub open spec fn join_lines(lines: Seq<Seq<char>>) -> Seq<char> {
    join_lines_from(lines, 0)
}

/// Joining three consecutive lines prepends them, newline-terminated, to
/// the join of what follows them.
proof fn lemma_join_three_lines(lines: Seq<Seq<char>>, i: int)
    requires
        0 <= i,
        i + 3 <= lines.len(),
    ensures
        join_lines_from(lines, i) == (lines[i] + "\n"@ + lines[i + 1] + "\n"@ + lines[i + 2]
            + "\n"@) + join_lines_from(lines, i + 3),
{
    reveal_with_fuel(join_lines_from, 4);
    assert(join_lines_from(lines, i) =~= (lines[i] + "\n"@ + lines[i + 1] + "\n"@ + lines[i + 2]
        + "\n"@) + join_lines_from(lines, i + 3));
}

/// The payload text is exactly the newline-join of its nine model lines.
pub proof fn lemma_payload_is_joined_lines(
    stable_gib: Seq<char>,
    wasm_gib: Seq<char>,
    cycles: Seq<char>,
    ts_millis: nat,
)
    ensures
        metrics_payload(stable_gib, wasm_gib, cycles, ts_millis) == join_lines(
            metrics_lines(stable_gib, wasm_gib, cycles, ts_millis),
        ),
{
    let lines = metrics_lines(stable_gib, wasm_gib, cycles, ts_millis);
    let b1 = gauge_block(stable_memory_name(), stable_gib, stable_memory_help(), ts_millis);
    let b2 = gauge_block(wasm_memory_name(), wasm_gib, wasm_memory_help(), ts_millis);
    let b3 = gauge_block(cycles_balance_name(), cycles, cycles_balance_help(), ts_millis);
    lemma_join_three_lines(lines, 6);
    lemma_join_three_lines(lines, 3);
    lemma_join_three_lines(lines, 0);
    assert(join_lines_from(lines, 9) =~= Seq::<char>::empty());
    assert(join_lines_from(lines, 6) =~= b3);
    assert(join_lines_from(lines, 3) =~= b2 + b3);
    assert(join_lines_from(lines, 0) =~= (b1 + b2) + b3);
}

/// True when `line` reports a sample for the metric `name`: it starts with
/// the name followed by a space.
pub open spec fn is_sample_line_for(line: Seq<char>, name: Seq<char>) -> bool {
    &&& line.len() > name.len()
    &&& line.subrange(0, name.len() as int) == name
    &&& line[name.len() as int] == ' '
}

/// Each of the three metric names heads exactly one sample line of the
/// payload, and they come in the fixed order stable memory (line 2), wasm
/// memory (line 5), cycles balance (line 8); the two lines directly before
/// each sample line are its HELP and TYPE metadata lines.
pub proof fn lemma_names_once_in_order(
    stable_gib: Seq<char>,
    wasm_gib: Seq<char>,
    cycles: Seq<char>,
    ts_millis: nat,
)
    ensures
        metrics_lines(stable_gib, wasm_gib, cycles, ts_millis).len() == 9,
        forall|i: int|
            0 <= i < 9 ==> (is_sample_line_for(
                #[trigger] metrics_lines(stable_gib, wasm_gib, cycles, ts_millis)[i],
                stable_memory_name(),
            ) <==> i == 2),
        forall|i: int|
            0 <= i < 9 ==> (is_sample_line_for(
                #[trigger] metrics_lines(stable_gib, wasm_gib, cycles, ts_millis)[i],
                wasm_memory_name(),
            ) <==> i == 5),
        forall|i: int|
            0 <= i < 9 ==> (is_sample_line_for(
                #[trigger] metrics_lines(stable_gib, wasm_gib, cycles, ts_millis)[i],
                cycles_balance_name(),
            ) <==> i == 8),
        metrics_lines(stable_gib, wasm_gib, cycles, ts_millis)[0] == help_line(
            stable_memory_name(),
            stable_memory_help(),
        ),
        metrics_lines(stable_gib, wasm_gib, cycles, ts_millis)[1] == type_line(
            stable_memory_name(),
        ),
        metrics_lines(stable_gib, wasm_gib, cycles, ts_millis)[3] == help_line(
            wasm_memory_name(),
            wasm_memory_help(),
        ),
        metrics_lines(stable_gib, wasm_gib, cycles, ts_millis)[4] == type_line(wasm_memory_name()),
        metrics_lines(stable_gib, wasm_gib, cycles, ts_millis)[6] == help_line(
            cycles_balance_name(),
            cycles_balance_help(),
        ),
        metrics_lines(stable_gib, wasm_gib, cycles, ts_millis)[7] == type_line(
            cycles_balance_name(),
        ),
{
    reveal_strlit("nx_gov_stable_memory_size_gib");
    reveal_strlit("nx_gov_wasm_memory_size_gib");
    reveal_strlit("nx_gov_canister_cycles_balance");
    reveal_strlit("# HELP ");
    reveal_strlit("# TYPE ");
    reveal_strlit(" ");
    lemma_dec_rep_nonempty(ts_millis);
    let lines = metrics_lines(stable_gib, wasm_gib, cycles, ts_millis);

    // The sample lines do head their own names.
    lemma_sample_line_heads_its_name(stable_memory_name(), stable_gib, ts_millis);
    lemma_sample_line_heads_its_name(wasm_memory_name(), wasm_gib, ts_millis);
    lemma_sample_line_heads_its_name(cycles_balance_name(), cycles, ts_millis);

    // Metadata lines start with '#', no metric name does.
    assert forall|i: int| 0 <= i < 9 && (i == 0 || i == 1 || i == 3 || i == 4 || i == 6 || i == 7)
        implies lines[i][0] == '#' by {
        assert(("# HELP "@ + stable_memory_name() + " "@ + stable_memory_help())[0] == '#');
        assert(("# HELP "@ + wasm_memory_name() + " "@ + wasm_memory_help())[0] == '#');
        assert(("# HELP "@ + cycles_balance_name() + " "@ + cycles_balance_help())[0] == '#');
        assert(("# TYPE "@ + stable_memory_name() + " gauge"@)[0] == '#');
        assert(("# TYPE "@ + wasm_memory_name() + " gauge"@)[0] == '#');
        assert(("# TYPE "@ + cycles_balance_name() + " gauge"@)[0] == '#');
    }
    assert forall|i: int, n: Seq<char>|
        0 <= i < 9 && (i == 0 || i == 1 || i == 3 || i == 4 || i == 6 || i == 7) && (n
            == stable_memory_name() || n == wasm_memory_name() || n == cycles_balance_name())
        implies !is_sample_line_for(lines[i], n) by {
        if is_sample_line_for(lines[i], n) {
            assert(lines[i][0] == n[0]);
            assert(n[0] == 'n');
        }
    }

    // No sample line heads a foreign name: the three names pairwise differ
    // at index 7 ('s', 'w', 'c'), before any value text can matter.
    assert(stable_memory_name()[7] == 's');
    assert(wasm_memory_name()[7] == 'w');
    assert(cycles_balance_name()[7] == 'c');
    lemma_sample_line_not_for_other_name(stable_memory_name(), stable_gib, ts_millis, wasm_memory_name());
    lemma_sample_line_not_for_other_name(stable_memory_name(), stable_gib, ts_millis, cycles_balance_name());
    lemma_sample_line_not_for_other_name(wasm_memory_name(), wasm_gib, ts_millis, stable_memory_name());
    lemma_sample_line_not_for_other_name(wasm_memory_name(), wasm_gib, ts_millis, cycles_balance_name());
    lemma_sample_line_not_for_other_name(cycles_balance_name(), cycles, ts_millis, stable_memory_name());
    lemma_sample_line_not_for_other_name(cycles_balance_name(), cycles, ts_millis, wasm_memory_name());
}

/// A sample line is a sample line for the name it was built from.
proof fn lemma_sample_line_heads_its_name(name: Seq<char>, value: Seq<char>, ts_millis: nat)
    requires
        name.len() > 0,
    ensures
        is_sample_line_for(sample_line(name, value, ts_millis), name),
{
    reveal_strlit(" ");
    lemma_dec_rep_nonempty(ts_millis);
    let line = sample_line(name, value, ts_millis);
    assert(line.subrange(0, name.len() as int) =~= name);
    assert(line[name.len() as int] == ' ');
}

/// A sample line built from one name is no sample line for a name that
/// differs from it at some index both names reach.
proof fn lemma_sample_line_not_for_other_name(
    name: Seq<char>,
    value: Seq<char>,
    ts_millis: nat,
    other: Seq<char>,
)
    requires
        exists|k: int| 0 <= k < name.len() && k < other.len() && name[k] != other[k],
    ensures
        !is_sample_line_for(sample_line(name, value, ts_millis), other),
{
    let line = sample_line(name, value, ts_millis);
    if is_sample_line_for(line, other) {
        let k = choose|k: int| 0 <= k < name.len() && k < other.len() && name[k] != other[k];
        assert(line[k] == name[k]);
        assert(line.subrange(0, other.len() as int)[k] == line[k]);
        assert(line[k] == other[k]);
    }
}

/// Two payloads over the same gauge values have the same shape: their nine
/// lines agree everywhere except that each sample line carries its own
/// timestamp after the common `<name> <value> ` prefix.
pub proof fn lemma_payload_shape_depends_only_on_values(
    stable_gib: Seq<char>,
    wasm_gib: Seq<char>,
    cycles: Seq<char>,
    ts1: nat,
    ts2: nat,
)
    ensures
        metrics_lines(stable_gib, wasm_gib, cycles, ts1).len() == 9,
        metrics_lines(stable_gib, wasm_gib, cycles, ts2).len() == 9,
        forall|i: int|
            0 <= i < 9 && i != 2 && i != 5 && i != 8 ==> #[trigger] metrics_lines(
                stable_gib,
                wasm_gib,
                cycles,
                ts1,
            )[i] == metrics_lines(stable_gib, wasm_gib, cycles, ts2)[i],
        metrics_lines(stable_gib, wasm_gib, cycles, ts1)[2] == sample_prefix(
            stable_memory_name(),
            stable_gib,
        ) + dec_rep(ts1),
        metrics_lines(stable_gib, wasm_gib, cycles, ts2)[2] == sample_prefix(
            stable_memory_name(),
            stable_gib,
        ) + dec_rep(ts2),
        metrics_lines(stable_gib, wasm_gib, cycles, ts1)[5] == sample_prefix(
            wasm_memory_name(),
            wasm_gib,
        ) + dec_rep(ts1),
        metrics_lines(stable_gib, wasm_gib, cycles, ts2)[5] == sample_prefix(
            wasm_memory_name(),
            wasm_gib,
        ) + dec_rep(ts2),
        metrics_lines(stable_gib, wasm_gib, cycles, ts1)[8] == sample_prefix(
            cycles_balance_name(),
            cycles,
        ) + dec_rep(ts1),
        metrics_lines(stable_gib, wasm_gib, cycles, ts2)[8] == sample_prefix(
            cycles_balance_name(),
            cycles,
        ) + dec_rep(ts2),
{
}

} // verus!

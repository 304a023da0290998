//! The caller/entry-point grid behind an authorization matrix: which
//! callers are known, which calls are expected to pass, and the verdict on
//! what actually happened.
use soroban_sdk::xdr::ScAddress;
use soroban_sdk::Address;
use vstd::prelude::*;

use crate::base::env::copy_address;
use crate::base::error::TestkitError;
use crate::base::render::{debug_quoted, debug_str, nat_text, u64_text};

verus! {

/// A stable text identifying an address by value: the strkey (`G...` for
/// accounts, `C...` for contracts) of its XDR form (`ScAddress::from`, then
/// `Display`). Nothing is stated of the result; two addresses compare equal
/// exactly when their strkeys do, which this library relies on without
/// proof.
#[verifier::external_body]
pub(crate) fn address_key(a: &Address) -> String {
    ScAddress::from(a).to_string()
}

/// The texts of a sequence of strings.
pub open spec fn texts(s: Seq<String>) -> Seq<Seq<char>> {
    s.map_values(|x: String| x@)
}

/// `s` with every repeated element dropped, keeping first occurrences in
/// their original order.
pub open spec fn dedup(s: Seq<Seq<char>>) -> Seq<Seq<char>>
    decreases s.len(),
{
    if s.len() == 0 {
        seq![]
    } else {
        let d = dedup(s.drop_last());
        if d.contains(s.last()) {
            d
        } else {
            d.push(s.last())
        }
    }
}

proof fn lemma_push_contains(s: Seq<Seq<char>>, y: Seq<char>, x: Seq<char>)
    ensures
        s.push(y).contains(x) <==> (s.contains(x) || x == y),
{
    if s.contains(x) {
        let k = choose|k: int| 0 <= k < s.len() && s[k] == x;
        assert(s.push(y)[k] == x);
    }
    if x == y {
        assert(s.push(y)[s.len() as int] == x);
    }
    if s.push(y).contains(x) {
        let k = choose|k: int| 0 <= k < s.push(y).len() && s.push(y)[k] == x;
        if k < s.len() {
            assert(s[k] == x);
        }
    }
}

/// A caller is known exactly when some entry point allows it: dropping
/// repeats keeps every key and adds none.
pub proof fn lemma_dedup_contains(s: Seq<Seq<char>>, x: Seq<char>)
    ensures
        dedup(s).contains(x) <==> s.contains(x),
    decreases s.len(),
{
    if s.len() > 0 {
        let p = s.drop_last();
        lemma_dedup_contains(p, x);
        assert(s =~= p.push(s.last()));
        lemma_push_contains(p, s.last(), x);
        lemma_push_contains(dedup(p), s.last(), x);
        lemma_dedup_contains(p, s.last());
    }
}

/// No caller is known twice.
pub proof fn lemma_dedup_no_duplicates(s: Seq<Seq<char>>)
    ensures
        dedup(s).no_duplicates(),
    decreases s.len(),
{
    if s.len() > 0 {
        let d = dedup(s.drop_last());
        lemma_dedup_no_duplicates(s.drop_last());
        if !d.contains(s.last()) {
            assert forall|a: int, b: int|
                0 <= a < d.push(s.last()).len() && 0 <= b < d.push(s.last()).len() && a != b implies
                d.push(s.last())[a] != d.push(s.last())[b] by {
                if a == d.len() && b < d.len() {
                    assert(d[b] == d.push(s.last())[b]);
                } else if b == d.len() && a < d.len() {
                    assert(d[a] == d.push(s.last())[a]);
                }
            }
        }
    }
}

fn contains_text(v: &Vec<String>, x: &String) -> (r: bool)
    ensures
        r == texts(v@).contains(x@),
{
    let mut i: usize = 0;
    while i < v.len()
        invariant
            i <= v.len(),
            forall|j: int| 0 <= j < i ==> v@[j]@ != x@,
        decreases v.len() - i,
    {
        if v[i] == *x {
            assert(texts(v@)[i as int] == x@);
            return true;
        }
        i = i + 1;
    }
    assert(!texts(v@).contains(x@)) by {
        if texts(v@).contains(x@) {
            let k = choose|k: int| 0 <= k < texts(v@).len() && texts(v@)[k] == x@;
            assert(v@[k]@ == x@);
        }
    }
    false
}

/// Position `p` of `s` holds the first occurrence of its element.
pub open spec fn first_at(s: Seq<Seq<char>>, p: int) -> bool {
    &&& 0 <= p < s.len()
    &&& forall|q: int| 0 <= q < p ==> s[q] != s[p]
}

/// The positions, in order, of the first occurrence of each distinct key
/// of `keys`: the callers an authorization matrix knows about.
pub fn first_occurrences(keys: &Vec<String>) -> (r: Vec<usize>)
    ensures
        forall|k: int| 0 <= k < r.len() ==> #[trigger] r@[k] < keys.len(),
        forall|k: int| 0 <= k < r.len() ==> #[trigger] first_at(texts(keys@), r@[k] as int),
        r@.map_values(|p: usize| keys@[p as int]@) == dedup(texts(keys@)),
{
    let mut seen: Vec<String> = Vec::new();
    let mut out: Vec<usize> = Vec::new();
    let mut i: usize = 0;
    while i < keys.len()
        invariant
            i <= keys.len(),
            out.len() == seen.len(),
            forall|k: int| 0 <= k < out.len() ==> #[trigger] out@[k] < i,
            forall|k: int| 0 <= k < out.len() ==> seen@[k]@ == keys@[#[trigger] out@[k] as int]@,
            forall|k: int| 0 <= k < out.len() ==> #[trigger] first_at(texts(keys@), out@[k] as int),
            texts(seen@) == dedup(texts(keys@).take(i as int)),
        decreases keys.len() - i,
    {
        let ghost prefix = texts(keys@).take(i as int);
        assert(texts(keys@).take(i + 1).drop_last() =~= prefix);
        assert(texts(keys@).take(i + 1).last() == keys@[i as int]@);
        if !contains_text(&seen, &keys[i]) {
            proof {
                lemma_dedup_contains(prefix, keys@[i as int]@);
                assert forall|q: int| 0 <= q < i implies texts(keys@)[q] != texts(keys@)[i as int] by {
                    assert(prefix[q] == texts(keys@)[q]);
                }
                assert(first_at(texts(keys@), i as int));
            }
            let ghost before = seen@;
            seen.push(keys[i].clone());
            out.push(i);
            assert(texts(seen@) =~= texts(before).push(keys@[i as int]@));
        }
        i = i + 1;
    }
    assert(texts(keys@).take(keys.len() as int) =~= texts(keys@));
    assert(out@.map_values(|p: usize| keys@[p as int]@) =~= texts(seen@));
    out
}

/// Which calls are expected to pass: row `i`, column `j` holds whether the
/// callers allowed on entry point `i` include known caller `j`.
pub open spec fn expected_cell(allowed: Seq<Seq<Seq<char>>>, known: Seq<Seq<char>>, i: int, j: int) -> bool {
    allowed[i].contains(known[j])
}

/// For every entry point (by its allowed callers' keys) and every known
/// caller key, whether the caller is allowed on that entry point.
pub fn expected_grid(allowed: &Vec<Vec<String>>, known: &Vec<String>) -> (r: Vec<Vec<bool>>)
    ensures
        r.len() == allowed.len(),
        forall|i: int| 0 <= i < r.len() ==> (#[trigger] r@[i]).len() == known.len(),
        forall|i: int, j: int|
            0 <= i < r.len() && 0 <= j < known.len() ==> #[trigger] r@[i]@[j] == texts(
                allowed@[i]@,
            ).contains(known@[j]@),
{
    let mut rows: Vec<Vec<bool>> = Vec::new();
    let mut i: usize = 0;
    while i < allowed.len()
        invariant
            i <= allowed.len(),
            rows.len() == i,
            forall|a: int| 0 <= a < i ==> (#[trigger] rows@[a]).len() == known.len(),
            forall|a: int, b: int|
                0 <= a < i && 0 <= b < known.len() ==> #[trigger] rows@[a]@[b] == texts(
                    allowed@[a]@,
                ).contains(known@[b]@),
        decreases allowed.len() - i,
    {
        let mut row: Vec<bool> = Vec::new();
        let mut j: usize = 0;
        while j < known.len()
            invariant
                i < allowed.len(),
                j <= known.len(),
                row.len() == j,
                forall|b: int| 0 <= b < j ==> #[trigger] row@[b] == texts(allowed@[i as int]@).contains(
                    known@[b]@,
                ),
            decreases known.len() - j,
        {
            row.push(contains_text(&allowed[i], &known[j]));
            j = j + 1;
        }
        rows.push(row);
        i = i + 1;
    }
    rows
}

/// `pass` or `reject`.
pub open spec fn outcome_text(pass: bool) -> Seq<char> {
    if pass {
        "pass"@
    } else {
        "reject"@
    }
}

/// The grid line of one cell.
pub open spec fn grid_line(caller: Seq<char>, expected: bool, actual: bool) -> Seq<char> {
    "    "@ + caller + ": expected="@ + outcome_text(expected) + " actual="@ + outcome_text(actual)
        + (if expected == actual {
        Seq::<char>::empty()
    } else {
        "  <-- MISMATCH"@
    }) + "\n"@
}

/// The violation line of one cell, or nothing if the cell is as expected.
pub open spec fn violation_line(name: Seq<char>, caller: Seq<char>, expected: bool, actual: bool) -> Seq<char> {
    if expected == actual {
        Seq::<char>::empty()
    } else {
        "entry point "@ + debug_quoted(name) + ": caller "@ + caller + " expected to "@ + (if expected {
            "succeed"@
        } else {
            "be rejected"@
        }) + " but "@ + (if actual {
            "succeeded"@
        } else {
            "was rejected"@
        }) + "\n"@
    }
}

/// The outcomes of a matrix: entry point names, caller renderings, and the
/// expected and actual outcome of every cell.
pub struct GridSpec {
    /// Entry point names, one per row.
    pub names: Seq<Seq<char>>,
    /// Caller renderings, one per column.
    pub callers: Seq<Seq<char>>,
    /// Expected outcomes, row by row.
    pub expected: Seq<Seq<bool>>,
    /// Actual outcomes, row by row.
    pub actual: Seq<Seq<bool>>,
}

impl GridSpec {
    /// The first `n` cells of row `i`, as grid lines.
    pub open spec fn row_grid(self, i: int, n: nat) -> Seq<char>
        decreases n,
    {
        if n == 0 {
            Seq::<char>::empty()
        } else {
            self.row_grid(i, (n - 1) as nat) + grid_line(
                self.callers[n - 1],
                self.expected[i][n - 1],
                self.actual[i][n - 1],
            )
        }
    }

    /// The first `n` cells of row `i`, as violation lines.
    pub open spec fn row_violations(self, i: int, n: nat) -> Seq<char>
        decreases n,
    {
        if n == 0 {
            Seq::<char>::empty()
        } else {
            self.row_violations(i, (n - 1) as nat) + violation_line(
                self.names[i],
                self.callers[n - 1],
                self.expected[i][n - 1],
                self.actual[i][n - 1],
            )
        }
    }

    /// The number of mismatching cells among the first `n` of row `i`.
    pub open spec fn row_mismatches(self, i: int, n: nat) -> nat
        decreases n,
    {
        if n == 0 {
            0
        } else {
            self.row_mismatches(i, (n - 1) as nat) + if self.expected[i][n - 1] == self.actual[i][n
                - 1] {
                0nat
            } else {
                1nat
            }
        }
    }

    /// The grid text of the first `m` rows.
    pub open spec fn grid_text(self, m: nat) -> Seq<char>
        decreases m,
    {
        if m == 0 {
            Seq::<char>::empty()
        } else {
            self.grid_text((m - 1) as nat) + "  ["@ + self.names[m - 1] + "]\n"@ + self.row_grid(
                m - 1,
                self.callers.len(),
            )
        }
    }

    /// The violation lines of the first `m` rows.
    pub open spec fn violations_text(self, m: nat) -> Seq<char>
        decreases m,
    {
        if m == 0 {
            Seq::<char>::empty()
        } else {
            self.violations_text((m - 1) as nat) + self.row_violations(m - 1, self.callers.len())
        }
    }

    /// The number of mismatching cells in the first `m` rows.
    pub open spec fn mismatches(self, m: nat) -> nat
        decreases m,
    {
        if m == 0 {
            0
        } else {
            self.mismatches((m - 1) as nat) + self.row_mismatches(m - 1, self.callers.len())
        }
    }

    /// Every cell's actual outcome is the expected one.
    pub open spec fn all_match(self) -> bool {
        forall|i: int, j: int|
            0 <= i < self.names.len() && 0 <= j < self.callers.len() ==> #[trigger] self.expected[i][j]
                == self.actual[i][j]
    }

    /// The failure message: how many cells are violated out of how many,
    /// one line per violating cell, then the full grid.
    pub open spec fn failure_text(self) -> Seq<char> {
        "auth matrix violated ("@ + nat_text(self.mismatches(self.names.len())) + " of "@ + nat_text(
            self.names.len() * self.callers.len(),
        ) + " cells):\n"@ + self.violations_text(self.names.len()) + "full grid:\n"@
            + self.grid_text(self.names.len())
    }
}

proof fn lemma_row_mismatches_zero(g: GridSpec, i: int, n: nat)
    requires
        n <= g.callers.len(),
        forall|j: int| 0 <= j < n ==> #[trigger] g.expected[i][j] == g.actual[i][j],
    ensures
        g.row_mismatches(i, n) == 0,
    decreases n,
{
    if n > 0 {
        lemma_row_mismatches_zero(g, i, (n - 1) as nat);
    }
}

proof fn lemma_row_mismatch_positive(g: GridSpec, i: int, n: nat, j: int)
    requires
        0 <= j < n,
        g.expected[i][j] != g.actual[i][j],
    ensures
        g.row_mismatches(i, n) > 0,
    decreases n,
{
    if j < n - 1 {
        lemma_row_mismatch_positive(g, i, (n - 1) as nat, j);
    }
}

proof fn lemma_mismatches_zero_iff(g: GridSpec, m: nat)
    requires
        m <= g.names.len(),
    ensures
        g.mismatches(m) == 0 <==> forall|i: int, j: int|
            0 <= i < m && 0 <= j < g.callers.len() ==> #[trigger] g.expected[i][j] == g.actual[i][j],
    decreases m,
{
    if m > 0 {
        lemma_mismatches_zero_iff(g, (m - 1) as nat);
        if forall|i: int, j: int|
            0 <= i < m && 0 <= j < g.callers.len() ==> #[trigger] g.expected[i][j] == g.actual[i][j] {
            assert forall|j: int| 0 <= j < g.callers.len() implies #[trigger] g.expected[m - 1][j]
                == g.actual[m - 1][j] by {}
            lemma_row_mismatches_zero(g, m - 1, g.callers.len());
        } else {
            let (a, b) = choose|i: int, j: int|
                !(0 <= i < m && 0 <= j < g.callers.len() ==> #[trigger] g.expected[i][j]
                    == g.actual[i][j]);
            if a == m - 1 {
                lemma_row_mismatch_positive(g, a, g.callers.len(), b);
            }
        }
    }
}

/// The expected/actual outcome texts.
fn outcome_str(pass: bool) -> (s: &'static str)
    ensures
        s@ == outcome_text(pass),
{
    if pass {
        "pass"
    } else {
        "reject"
    }
}

fn append_cell(
    grid: &mut String,
    violations: &mut String,
    name: &String,
    caller: &String,
    exp: bool,
    act: bool,
)
    ensures
        final(grid)@ == old(grid)@ + grid_line(caller@, exp, act),
        final(violations)@ == old(violations)@ + violation_line(name@, caller@, exp, act),
{
    let ghost g0 = grid@;
    let ghost v0 = violations@;
    grid.append("    ");
    grid.append(caller.as_str());
    grid.append(": expected=");
    grid.append(outcome_str(exp));
    grid.append(" actual=");
    grid.append(outcome_str(act));
    if exp != act {
        grid.append("  <-- MISMATCH");
        violations.append("entry point ");
        violations.append(debug_str(name.as_str()).as_str());
        violations.append(": caller ");
        violations.append(caller.as_str());
        violations.append(" expected to ");
        violations.append(if exp { "succeed" } else { "be rejected" });
        violations.append(" but ");
        violations.append(if act { "succeeded" } else { "was rejected" });
        violations.append("\n");
    }
    grid.append("\n");
    assert(grid@ =~= g0 + grid_line(caller@, exp, act));
    assert(violations@ =~= v0 + violation_line(name@, caller@, exp, act));
}

/// Judge a completed matrix: `names` are the entry points (rows), `callers`
/// render the known callers (columns), and `expected` and `actual` hold
/// every cell's expected and observed outcome. Reports a
/// [`TestkitError::AssertionFailed`] naming every violating cell, followed
/// by the full grid, unless every cell is as expected.
pub fn grid_verdict(
    names: &Vec<String>,
    callers: &Vec<String>,
    expected: &Vec<Vec<bool>>,
    actual: &Vec<Vec<bool>>,
) -> (r: Result<(), TestkitError>)
    requires
        expected.len() == names.len(),
        actual.len() == names.len(),
        forall|i: int| 0 <= i < names.len() ==> (#[trigger] expected@[i]).len() == callers.len(),
        forall|i: int| 0 <= i < names.len() ==> (#[trigger] actual@[i]).len() == callers.len(),
        names.len() * callers.len() <= u64::MAX,
    ensures
        ({
            let g = GridSpec {
                names: texts(names@),
                callers: texts(callers@),
                expected: expected@.map_values(|row: Vec<bool>| row@),
                actual: actual@.map_values(|row: Vec<bool>| row@),
            };
            &&& r is Ok <==> g.all_match()
            &&& r matches Err(e) ==> e is AssertionFailed && e.detail() == g.failure_text()
        }),
{
    let ghost g = GridSpec {
        names: texts(names@),
        callers: texts(callers@),
        expected: expected@.map_values(|row: Vec<bool>| row@),
        actual: actual@.map_values(|row: Vec<bool>| row@),
    };
    let mut violations = String::new();
    let mut grid = String::new();
    let mut count: u64 = 0;
    let mut i: usize = 0;
    assert(violations@ =~= g.violations_text(0));
    assert(grid@ =~= g.grid_text(0));
    while i < names.len()
        invariant
            i <= names.len(),
            expected.len() == names.len(),
            actual.len() == names.len(),
            forall|a: int| 0 <= a < names.len() ==> (#[trigger] expected@[a]).len() == callers.len(),
            forall|a: int| 0 <= a < names.len() ==> (#[trigger] actual@[a]).len() == callers.len(),
            names.len() * callers.len() <= u64::MAX,
            g.names == texts(names@),
            g.callers == texts(callers@),
            g.expected == expected@.map_values(|row: Vec<bool>| row@),
            g.actual == actual@.map_values(|row: Vec<bool>| row@),
            violations@ == g.violations_text(i as nat),
            grid@ == g.grid_text(i as nat),
            count == g.mismatches(i as nat),
            g.mismatches(i as nat) <= i * callers.len(),
        decreases names.len() - i,
    {
        grid.append("  [");
        grid.append(names[i].as_str());
        grid.append("]\n");
        assert(grid@ =~= g.grid_text(i as nat) + "  ["@ + g.names[i as int] + "]\n"@);
        let ghost row_start_v = violations@;
        let ghost row_start_g = grid@;
        let ghost row_start_c = count;
        let mut j: usize = 0;
        assert(violations@ =~= row_start_v + g.row_violations(i as int, 0));
        assert(grid@ =~= row_start_g + g.row_grid(i as int, 0));
        while j < callers.len()
            invariant
                i < names.len(),
                j <= callers.len(),
                expected.len() == names.len(),
                actual.len() == names.len(),
                expected@[i as int].len() == callers.len(),
                actual@[i as int].len() == callers.len(),
                names.len() * callers.len() <= u64::MAX,
                g.names == texts(names@),
                g.callers == texts(callers@),
                g.expected == expected@.map_values(|row: Vec<bool>| row@),
                g.actual == actual@.map_values(|row: Vec<bool>| row@),
                violations@ == row_start_v + g.row_violations(i as int, j as nat),
                grid@ == row_start_g + g.row_grid(i as int, j as nat),
                count == row_start_c + g.row_mismatches(i as int, j as nat),
                row_start_c <= i * callers.len(),
                g.row_mismatches(i as int, j as nat) <= j,
            decreases callers.len() - j,
        {
            let exp = expected[i][j];
            let act = actual[i][j];
            assert(g.expected[i as int][j as int] == exp);
            assert(g.actual[i as int][j as int] == act);
            let ghost before_g = grid@;
            let ghost before_v = violations@;
            append_cell(&mut grid, &mut violations, &names[i], &callers[j], exp, act);
            if exp != act {
                assert(count + 1 <= names.len() * callers.len()) by (nonlinear_arith)
                    requires
                        count == row_start_c + g.row_mismatches(i as int, j as nat),
                        row_start_c <= i * callers.len(),
                        g.row_mismatches(i as int, j as nat) <= j,
                        j < callers.len(),
                        i < names.len(),
                ;
                count = count + 1;
            }
            proof {
                let line = grid_line(g.callers[j as int], exp, act);
                let vline = violation_line(g.names[i as int], g.callers[j as int], exp, act);
                assert(g.row_grid(i as int, (j + 1) as nat) == g.row_grid(i as int, j as nat) + line);
                assert(g.row_violations(i as int, (j + 1) as nat) == g.row_violations(i as int, j as nat) + vline);
                assert(grid@ =~= row_start_g + g.row_grid(i as int, (j + 1) as nat));
                assert(violations@ =~= row_start_v + g.row_violations(i as int, (j + 1) as nat));
            }
            j = j + 1;
        }
        proof {
            assert(g.grid_text((i + 1) as nat) == g.grid_text(i as nat) + "  ["@ + g.names[i as int] + "]\n"@ + g.row_grid(i as int, g.callers.len()));
            assert(grid@ =~= g.grid_text((i + 1) as nat));
            assert(violations@ =~= g.violations_text((i + 1) as nat));
        }
        assert(g.mismatches((i + 1) as nat) <= (i + 1) * callers.len()) by (nonlinear_arith)
            requires
                g.mismatches((i + 1) as nat) == g.mismatches(i as nat) + g.row_mismatches(
                    i as int,
                    callers.len() as nat,
                ),
                g.mismatches(i as nat) <= i * callers.len(),
                g.row_mismatches(i as int, callers.len() as nat) <= callers.len(),
        ;
        i = i + 1;
    }
    proof {
        lemma_mismatches_zero_iff(g, names.len() as nat);
    }
    if count == 0 {
        return Ok(());
    }
    let cells: u64 = (names.len() as u64) * (callers.len() as u64);
    let mut m = String::from_str("auth matrix violated (");
    m.append(u64_text(count).as_str());
    m.append(" of ");
    m.append(u64_text(cells).as_str());
    m.append(" cells):\n");
    m.append(violations.as_str());
    m.append("full grid:\n");
    m.append(grid.as_str());
    Err(TestkitError::AssertionFailed(m))
}

} // verus!

verus! {

/// Everything an authorization matrix needs before it calls any entry
/// point: the keys of each entry point's allowed callers, the known callers
/// (every caller allowed on some entry point, each once, in order of first
/// appearance), their keys, and which cells are expected to pass.
pub struct MatrixPlan {
    /// The keys of each entry point's allowed callers.
    pub allowed_keys: Vec<Vec<String>>,
    /// The known callers.
    pub known: Vec<Address>,
    /// The keys of the known callers.
    pub known_keys: Vec<String>,
    /// Row `i`, column `j`: whether known caller `j` is allowed on entry
    /// point `i`.
    pub expected: Vec<Vec<bool>>,
}

/// All keys of `rows`, row after row.
pub open spec fn flat_texts(rows: Seq<Vec<String>>) -> Seq<Seq<char>>
    decreases rows.len(),
{
    if rows.len() == 0 {
        seq![]
    } else {
        flat_texts(rows.drop_last()) + texts(rows.last()@)
    }
}

/// All addresses of `rows`, row after row.
pub open spec fn flat_addresses(rows: Seq<Vec<Address>>) -> Seq<Address>
    decreases rows.len(),
{
    if rows.len() == 0 {
        seq![]
    } else {
        flat_addresses(rows.drop_last()) + rows.last()@
    }
}

/// Known caller `j` of `plan` is the allowed address at position `p` of
/// the flattened lists, where its key occurs first.
pub open spec fn known_from(plan: MatrixPlan, allowed: Seq<Vec<Address>>, j: int, p: int) -> bool {
    &&& first_at(flat_texts(plan.allowed_keys@), p)
    &&& plan.known@[j] == flat_addresses(allowed)[p]
    &&& plan.known_keys@[j]@ == flat_texts(plan.allowed_keys@)[p]
}

/// Known caller `j` of `plan` is the allowed address where its key first
/// occurs in the flattened lists.
pub open spec fn known_traced(plan: MatrixPlan, allowed: Seq<Vec<Address>>, j: int) -> bool {
    exists|p: int| #[trigger] known_from(plan, allowed, j, p)
}

/// Plan a matrix whose entry point `i` allows the callers `allowed[i]`.
/// Each known caller is the allowed address at the first occurrence of its
/// key, taken from the lists in order.
pub fn matrix_plan(allowed: &Vec<Vec<Address>>) -> (r: MatrixPlan)
    ensures
        flat_texts(r.allowed_keys@).len() == flat_addresses(allowed@).len(),
        forall|j: int| 0 <= j < r.known.len() ==> #[trigger] known_traced(r, allowed@, j),
        r.allowed_keys.len() == allowed.len(),
        forall|i: int|
            0 <= i < allowed.len() ==> (#[trigger] r.allowed_keys@[i]).len() == allowed@[i].len(),
        r.known.len() == r.known_keys.len(),
        texts(r.known_keys@) == dedup(flat_texts(r.allowed_keys@)),
        r.expected.len() == allowed.len(),
        forall|i: int| 0 <= i < r.expected.len() ==> (#[trigger] r.expected@[i]).len() == r.known.len(),
        forall|i: int, j: int|
            0 <= i < r.expected.len() && 0 <= j < r.known.len() ==> #[trigger] r.expected@[i]@[j]
                == texts(r.allowed_keys@[i]@).contains(r.known_keys@[j]@),
{
    let mut allowed_keys: Vec<Vec<String>> = Vec::new();
    let mut flat_keys: Vec<String> = Vec::new();
    let mut flat_addrs: Vec<Address> = Vec::new();
    let mut i: usize = 0;
    while i < allowed.len()
        invariant
            i <= allowed.len(),
            allowed_keys.len() == i,
            flat_keys.len() == flat_addrs.len(),
            forall|a: int| 0 <= a < i ==> (#[trigger] allowed_keys@[a]).len() == allowed@[a].len(),
            texts(flat_keys@) == flat_texts(allowed_keys@),
            flat_addrs@ == flat_addresses(allowed@.take(i as int)),
        decreases allowed.len() - i,
    {
        let mut row: Vec<String> = Vec::new();
        let ghost flat_before = texts(flat_keys@);
        let ghost addrs_before = flat_addrs@;
        let mut j: usize = 0;
        while j < allowed[i].len()
            invariant
                i < allowed.len(),
                j <= allowed@[i as int].len(),
                row.len() == j,
                flat_keys.len() == flat_addrs.len(),
                texts(flat_keys@) == flat_before + texts(row@),
                flat_addrs@ == addrs_before + allowed@[i as int]@.take(j as int),
            decreases allowed@[i as int].len() - j,
        {
            let key = address_key(&allowed[i][j]);
            let ghost fk = flat_keys@;
            let ghost rw = row@;
            let ghost fa = flat_addrs@;
            flat_keys.push(key.clone());
            flat_addrs.push(copy_address(&allowed[i][j]));
            row.push(key);
            assert(texts(flat_keys@) =~= texts(fk).push(key@));
            assert(texts(row@) =~= texts(rw).push(key@));
            assert(flat_addrs@ =~= addrs_before + allowed@[i as int]@.take(j + 1));
            j = j + 1;
        }
        let ghost keys_before = allowed_keys@;
        allowed_keys.push(row);
        assert(allowed_keys@.drop_last() =~= keys_before);
        assert(allowed@.take(i + 1).drop_last() =~= allowed@.take(i as int));
        assert(allowed@[i as int]@.take(allowed@[i as int].len() as int) =~= allowed@[i as int]@);
        i = i + 1;
    }
    assert(allowed@.take(allowed.len() as int) =~= allowed@);
    assert(texts(flat_keys@).len() == flat_keys.len());
    let firsts = first_occurrences(&flat_keys);
    let mut known: Vec<Address> = Vec::new();
    let mut known_keys: Vec<String> = Vec::new();
    let mut k: usize = 0;
    while k < firsts.len()
        invariant
            k <= firsts.len(),
            flat_keys.len() == flat_addrs.len(),
            forall|a: int| 0 <= a < firsts.len() ==> #[trigger] firsts@[a] < flat_keys.len(),
            known.len() == k,
            known_keys.len() == k,
            forall|a: int| 0 <= a < k ==> known_keys@[a]@ == flat_keys@[#[trigger] firsts@[a] as int]@,
            forall|a: int| 0 <= a < k ==> known@[a] == flat_addrs@[#[trigger] firsts@[a] as int],
        decreases firsts.len() - k,
    {
        let p = firsts[k];
        known.push(copy_address(&flat_addrs[p]));
        known_keys.push(flat_keys[p].clone());
        k = k + 1;
    }
    assert(texts(known_keys@) =~= firsts@.map_values(|p: usize| flat_keys@[p as int]@));
    let expected = expected_grid(&allowed_keys, &known_keys);
    let r = MatrixPlan { allowed_keys, known, known_keys, expected };
    assert forall|j: int| 0 <= j < r.known.len() implies #[trigger] known_traced(r, allowed@, j) by {
        let p = firsts@[j] as int;
        assert(texts(flat_keys@)[p] == flat_keys@[p]@);
        assert(known_from(r, allowed@, j, p));
    }
    r
}

} // verus!

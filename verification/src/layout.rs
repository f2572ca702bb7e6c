//! Address arithmetic of the hex grid: rows, columns and clusters.
use std::ops::Range;
use vstd::arithmetic::power::pow;
use vstd::prelude::*;

verus! {

/// Number of addresses in a range; a range whose end lies before its start is empty.
pub open spec fn range_len(r: Range<usize>) -> nat {
    if r.start <= r.end {
        (r.end - r.start) as nat
    } else {
        0
    }
}

/// Whether an address lies inside a half-open range.
pub open spec fn range_contains(r: Range<usize>, address: usize) -> bool {
    r.start <= address < r.end
}

/// Quotient rounded up.
pub open spec fn ceil_div(n: int, d: int) -> int
    recommends
        d > 0,
{
    (n + d - 1) / d
}

/// Rows needed to show every address of the range with `column_count` cells per row.
pub open spec fn spec_row_count(r: Range<usize>, column_count: usize) -> int
    recommends
        column_count > 0,
{
    ceil_div(range_len(r) as int, column_count as int)
}

/// The address shown at `(row, col)`, before any bound is applied.
pub open spec fn grid_address(r: Range<usize>, column_count: usize, row: usize, col: usize) -> int {
    r.start + row * column_count + col
}

/// The address shown at `(row, col)`, if that cell exists: the column is one of
/// the row's columns and the address lies inside the range.
pub open spec fn spec_cell_address(
    r: Range<usize>,
    column_count: usize,
    row: usize,
    col: usize,
) -> Option<usize> {
    if col < column_count && grid_address(r, column_count, row, col) < r.end {
        Some(grid_address(r, column_count, row, col) as usize)
    } else {
        None
    }
}

/// Row and column of an address of the range.
pub open spec fn spec_locate(r: Range<usize>, column_count: usize, address: usize) -> Option<
    (usize, usize),
>
    recommends
        column_count > 0,
{
    if range_contains(r, address) {
        Some(
            (
                ((address - r.start) / (column_count as int)) as usize,
                ((address - r.start) % (column_count as int)) as usize,
            ),
        )
    } else {
        None
    }
}

/// The quotient rounded up is the least count of groups of `d` that hold `n`
/// things: the plain quotient, and one more where something is left over.
pub proof fn lemma_ceil_div(n: int, d: int)
    requires
        n >= 0,
        d > 0,
    ensures
        ceil_div(n, d) == n / d + if n % d == 0 { 0int } else { 1int },
        ceil_div(n, d) * d >= n,
        (ceil_div(n, d) - 1) * d < n || n == 0,
        n == 0 ==> ceil_div(n, d) == 0,
{
    let q = n / d;
    let m = n % d;
    assert(n == q * d + m && 0 <= m < d) by (nonlinear_arith)
        requires
            q == n / d,
            m == n % d,
            d > 0,
    ;
    if m == 0 {
        assert((q * d + d - 1) / d == q) by (nonlinear_arith)
            requires
                d > 0,
        ;
    } else {
        assert((q * d + m + d - 1) / d == q + 1) by (nonlinear_arith)
            requires
                d > 0,
                0 < m < d,
        ;
    }
    assert(ceil_div(n, d) * d >= n && ((ceil_div(n, d) - 1) * d < n || n == 0))
        by (nonlinear_arith)
        requires
            n == q * d + m,
            0 <= m < d,
            ceil_div(n, d) == q + if m == 0 { 0int } else { 1int },
            n >= 0,
    ;
}

/// Length of a range.
pub fn address_count(address_space: &Range<usize>) -> (n: usize)
    ensures
        n == range_len(*address_space),
{
    if address_space.start <= address_space.end {
        address_space.end - address_space.start
    } else {
        0
    }
}

/// Whether the range holds the address.
pub fn in_range(address_space: &Range<usize>, address: usize) -> (b: bool)
    ensures
        b == range_contains(*address_space, address),
{
    address_space.start <= address && address < address_space.end
}

/// Number of rows of the grid: the length of the range divided by the column
/// count, rounded up.
pub fn row_count(address_space: &Range<usize>, column_count: usize) -> (rows: usize)
    requires
        column_count > 0,
    ensures
        rows == spec_row_count(*address_space, column_count),
{
    let len: usize = address_count(address_space);
    proof {
        lemma_ceil_div(len as int, column_count as int);
    }
    if len % column_count == 0 {
        len / column_count
    } else {
        assert(len / column_count < len) by (nonlinear_arith)
            requires
                len % column_count != 0,
                column_count > 0,
        ;
        len / column_count + 1
    }
}

/// The address of the cell at `(row, col)`, or `None` where the grid has no
/// such cell. Nothing wraps: a row or column past the end of the range gives
/// `None`, whatever its size.
pub fn cell_address(address_space: &Range<usize>, column_count: usize, row: usize, col: usize) -> (addr:
    Option<usize>)
    requires
        column_count > 0,
    ensures
        addr == spec_cell_address(*address_space, column_count, row, col),
        addr is Some ==> range_contains(*address_space, addr.unwrap()),
{
    let len: usize = address_count(address_space);
    if col >= column_count || len == 0 {
        return None;
    }
    let last_row: usize = (len - 1) / column_count;
    if row > last_row {
        assert(row * column_count > len - 1) by (nonlinear_arith)
            requires
                row >= (len - 1) / (column_count as int) + 1,
                column_count > 0,
                len >= 1,
        ;
        return None;
    }
    assert(row * column_count <= len - 1) by (nonlinear_arith)
        requires
            row <= (len - 1) / (column_count as int),
            column_count > 0,
            len >= 1,
    ;
    let row_offset: usize = row * column_count;
    if col >= len - row_offset {
        None
    } else {
        Some(address_space.start + row_offset + col)
    }
}

/// The first address of a row, or `None` for a row past the last one.
pub fn row_start_address(address_space: &Range<usize>, column_count: usize, row: usize) -> (addr:
    Option<usize>)
    requires
        column_count > 0,
    ensures
        addr == spec_cell_address(*address_space, column_count, row, 0),
        addr is Some <==> row < spec_row_count(*address_space, column_count),
        addr is Some ==> addr.unwrap() == address_space.start + row * column_count,
{
    proof {
        lemma_row_exists(*address_space, column_count, row);
    }
    cell_address(address_space, column_count, row, 0)
}

/// A row has a first cell exactly when its index is below the row count.
pub proof fn lemma_row_exists(r: Range<usize>, column_count: usize, row: usize)
    requires
        column_count > 0,
    ensures
        spec_cell_address(r, column_count, row, 0) is Some <==> row < spec_row_count(
            r,
            column_count,
        ),
{
    let len = range_len(r) as int;
    let d = column_count as int;
    lemma_ceil_div(len, d);
    let rows = ceil_div(len, d);
    if row < rows {
        assert(row * d < len) by (nonlinear_arith)
            requires
                row <= rows - 1,
                (rows - 1) * d < len || len == 0,
                rows > 0,
                rows * d >= len,
                d > 0,
                len >= 0,
                row >= 0,
                len == 0 ==> rows == 0,
        ;
    } else {
        assert(row * d >= len) by (nonlinear_arith)
            requires
                row >= rows,
                rows * d >= len,
                d > 0,
        ;
    }
}

/// Row and column of an address, or `None` for an address outside the range.
pub fn locate(address_space: &Range<usize>, column_count: usize, address: usize) -> (cell: Option<
    (usize, usize),
>)
    requires
        column_count > 0,
    ensures
        cell == spec_locate(*address_space, column_count, address),
        cell is Some <==> range_contains(*address_space, address),
{
    if in_range(address_space, address) {
        let offset: usize = address - address_space.start;
        Some((offset / column_count, offset % column_count))
    } else {
        None
    }
}

/// Every cell of the grid shows the address `start + row * column_count + col`,
/// and every such address below the end of the range has a cell.
pub proof fn lemma_cell_address_formula(
    r: Range<usize>,
    column_count: usize,
    row: usize,
    col: usize,
)
    requires
        column_count > 0,
        col < column_count,
        r.start + row * column_count + col < r.end,
    ensures
        spec_cell_address(r, column_count, row, col) == Some(
            (r.start + row * column_count + col) as usize,
        ),
        row < spec_row_count(r, column_count),
{
    lemma_row_exists(r, column_count, row);
    assert(row * column_count >= 0) by (nonlinear_arith);
}

/// Locating the address of a cell gives the cell back.
pub proof fn lemma_locate_cell(r: Range<usize>, column_count: usize, row: usize, col: usize)
    requires
        column_count > 0,
        spec_cell_address(r, column_count, row, col) is Some,
    ensures
        spec_locate(r, column_count, spec_cell_address(r, column_count, row, col).unwrap())
            == Some((row, col)),
{
    let d = column_count as int;
    let off = row * d + col;
    assert(row * d >= 0) by (nonlinear_arith)
        requires
            d > 0,
            row >= 0,
    ;
    assert(off / d == row && off % d == col) by (nonlinear_arith)
        requires
            off == row * d + col,
            0 <= col < d,
    ;
}

/// The cell that an address is located at shows that address.
pub proof fn lemma_cell_of_located(r: Range<usize>, column_count: usize, address: usize)
    requires
        column_count > 0,
        range_contains(r, address),
    ensures
        spec_locate(r, column_count, address) is Some,
        spec_cell_address(
            r,
            column_count,
            spec_locate(r, column_count, address).unwrap().0,
            spec_locate(r, column_count, address).unwrap().1,
        ) == Some(address),
{
    let d = column_count as int;
    let off = address - r.start;
    assert(off == (off / d) * d + off % d && 0 <= off % d < d && 0 <= off / d <= off)
        by (nonlinear_arith)
        requires
            d > 0,
            off >= 0,
    ;
}

/// Cells of a row are drawn in clusters of this many columns.
pub const CLUSTER_SIZE: usize = 8;

/// Number of clusters that a row of `column_count` cells is split into.
pub open spec fn spec_cluster_count(column_count: usize) -> int {
    ceil_div(column_count as int, 8)
}

/// Columns of one cluster of a row: eight, fewer for the last cluster where the
/// column count is no multiple of eight, none past the last cluster.
pub open spec fn spec_cluster_width(column_count: usize, cluster: usize) -> int {
    if 8 * cluster >= column_count {
        0
    } else if column_count - 8 * cluster < 8 {
        column_count - 8 * cluster
    } else {
        8
    }
}

/// Whether a cluster of the row that starts at `row_start` shows the address:
/// it lies in the cluster's eight addresses, in the row, and in the range.
pub open spec fn in_cluster(
    r: Range<usize>,
    row_start: usize,
    column_count: usize,
    cluster: usize,
    address: usize,
) -> bool {
    &&& row_start + 8 * cluster <= address < row_start + 8 * cluster + 8
    &&& row_start <= address < row_start + column_count
    &&& range_contains(r, address)
}

/// The addresses that a cluster shows, as a range; the empty range is `0..0`.
pub open spec fn spec_cluster_cells(
    r: Range<usize>,
    row_start: usize,
    column_count: usize,
    cluster: usize,
) -> Range<usize> {
    let first = row_start + 8 * cluster;
    let lo = if first < r.start {
        r.start as int
    } else {
        first
    };
    let row_hi = if column_count < 8 * cluster + 8 {
        row_start + column_count
    } else {
        first + 8
    };
    let hi = if row_hi < r.end {
        row_hi
    } else {
        r.end as int
    };
    if lo < hi {
        Range { start: lo as usize, end: hi as usize }
    } else {
        Range { start: 0, end: 0 }
    }
}

/// The range of a cluster holds exactly the addresses that the cluster shows.
pub proof fn lemma_cluster_cells(
    r: Range<usize>,
    row_start: usize,
    column_count: usize,
    cluster: usize,
    address: usize,
)
    ensures
        range_contains(spec_cluster_cells(r, row_start, column_count, cluster), address)
            <==> in_cluster(r, row_start, column_count, cluster, address),
        spec_cluster_cells(r, row_start, column_count, cluster).start <= spec_cluster_cells(
            r,
            row_start,
            column_count,
            cluster,
        ).end,
{
}

/// Every address of a row that lies in the range is shown by exactly one
/// cluster of the row: the one that its column, divided by eight, gives.
pub proof fn lemma_clusters_split_row(
    r: Range<usize>,
    row_start: usize,
    column_count: usize,
    address: usize,
    cluster: usize,
)
    requires
        range_contains(r, address),
        row_start <= address < row_start + column_count,
    ensures
        in_cluster(r, row_start, column_count, cluster, address) <==> cluster == (address
            - row_start) / 8,
        (address - row_start) / 8 < spec_cluster_count(column_count),
{
    lemma_ceil_div(column_count as int, 8);
}

/// Number of clusters in a row.
pub fn cluster_count(column_count: usize) -> (n: usize)
    ensures
        n == spec_cluster_count(column_count),
{
    proof {
        lemma_ceil_div(column_count as int, 8);
    }
    if column_count % CLUSTER_SIZE == 0 {
        column_count / CLUSTER_SIZE
    } else {
        column_count / CLUSTER_SIZE + 1
    }
}

/// Number of columns in one cluster of a row.
pub fn cluster_width(column_count: usize, cluster: usize) -> (w: usize)
    ensures
        w == spec_cluster_width(column_count, cluster),
        w <= 8,
{
    if cluster >= cluster_count(column_count) {
        proof {
            lemma_ceil_div(column_count as int, 8);
        }
        0
    } else {
        proof {
            lemma_ceil_div(column_count as int, 8);
        }
        let rest: usize = column_count - CLUSTER_SIZE * cluster;
        if rest < CLUSTER_SIZE {
            rest
        } else {
            CLUSTER_SIZE
        }
    }
}

/// The addresses that one cluster of a row shows. Addresses outside the range
/// are left out; nothing wraps.
pub fn cluster_cells(
    address_space: &Range<usize>,
    row_start: usize,
    column_count: usize,
    cluster: usize,
) -> (cells: Range<usize>)
    ensures
        cells == spec_cluster_cells(*address_space, row_start, column_count, cluster),
        cells.start <= cells.end,
        forall|a: usize|
            range_contains(cells, a) <==> in_cluster(
                *address_space,
                row_start,
                column_count,
                cluster,
                a,
            ),
{
    let width: usize = cluster_width(column_count, cluster);
    if width == 0 {
        return Range { start: 0, end: 0 };
    }
    let offset: usize = CLUSTER_SIZE * cluster;
    let first: usize = match row_start.checked_add(offset) {
        Some(a) => a,
        None => {
            return Range { start: 0, end: 0 };
        },
    };
    let lo: usize = if first < address_space.start {
        address_space.start
    } else {
        first
    };
    let row_hi: usize = first.saturating_add(width);
    let hi: usize = if row_hi < address_space.end {
        row_hi
    } else {
        address_space.end
    };
    if lo < hi {
        Range { start: lo, end: hi }
    } else {
        Range { start: 0, end: 0 }
    }
}

/// Number of cells of the row starting at `row_start` that lie in the range:
/// the column count, or what is left of the range where that is less.
pub open spec fn spec_row_width(r: Range<usize>, row_start: usize, column_count: usize) -> int {
    if !range_contains(r, row_start) {
        0
    } else if r.end - row_start < column_count {
        r.end - row_start
    } else {
        column_count as int
    }
}

/// Number of cells of a row that lie in the range.
pub fn row_width(address_space: &Range<usize>, row_start: usize, column_count: usize) -> (w: usize)
    ensures
        w == spec_row_width(*address_space, row_start, column_count),
        w <= column_count,
{
    if !in_range(address_space, row_start) {
        0
    } else if address_space.end - row_start < column_count {
        address_space.end - row_start
    } else {
        column_count
    }
}

/// Whether the row starting at `row_start` holds the address.
pub fn row_contains(row_start: usize, column_count: usize, address: usize) -> (b: bool)
    ensures
        b == (row_start <= address < row_start + column_count),
{
    address >= row_start && address - row_start < column_count
}

/// Number of hexadecimal digits needed to write `n`; zero takes one digit.
pub open spec fn spec_hex_digit_count(n: nat) -> nat
    decreases n,
{
    if n < 16 {
        1
    } else {
        1 + spec_hex_digit_count(n / 16)
    }
}

/// A number is below sixteen to the power of its digit count, and a number
/// of more than one digit is at least sixteen to the power of one less.
pub proof fn lemma_hex_digit_count_bounds(n: nat)
    ensures
        n < pow(16, spec_hex_digit_count(n)),
        n >= 16 ==> pow(16, (spec_hex_digit_count(n) - 1) as nat) <= n,
        n < 16 <==> spec_hex_digit_count(n) == 1,
    decreases n,
{
    reveal(pow);
    let digits = spec_hex_digit_count(n);
    if n < 16 {
        assert(pow(16, 1) == 16 * pow(16, 0));
    } else {
        let rest = n / 16;
        lemma_hex_digit_count_bounds(rest);
        let inner = spec_hex_digit_count(rest);
        assert(digits == 1 + inner);
        assert(pow(16, digits) == 16 * pow(16, inner));
        assert(pow(16, inner) == 16 * pow(16, (inner - 1) as nat));
        assert(16 * rest <= n < 16 * rest + 16);
        if rest < 16 {
            assert(pow(16, 1) == 16 * pow(16, 0));
        }
    }
}

/// Number of hexadecimal digits of `n`: the width of the address labels for a
/// range that ends at `n`.
pub fn hex_digit_count(n: usize) -> (digits: usize)
    ensures
        digits == spec_hex_digit_count(n as nat),
{
    let mut rest: usize = n;
    let mut digits: usize = 1;
    while rest >= 16
        invariant
            digits >= 1,
            digits + spec_hex_digit_count(rest as nat) == 1 + spec_hex_digit_count(n as nat),
            digits + rest <= n + 1,
        decreases rest,
    {
        rest = rest / 16;
        digits = digits + 1;
    }
    digits
}

} // verus!

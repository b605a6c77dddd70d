use vstd::prelude::*;
use vstd::string::StringExecFns;

verus! {

/// Memory and swap counters as the operating system reports them, in KiB.
#[derive(PartialEq, Eq, Structural, Clone, Copy, Debug)]
pub struct MemoryCounters {
    pub total_memory_kib: u64,
    pub available_memory_kib: u64,
    pub free_memory_kib: u64,
    pub used_memory_kib: u64,
    pub total_swap_kib: u64,
    pub free_swap_kib: u64,
    pub used_swap_kib: u64,
}

/// Memory and swap statistics in whole megabytes.
#[derive(PartialEq, Eq, Structural, Clone, Copy, Debug)]
pub struct MemoryReport {
    pub total_memory: u64,
    pub available_memory: u64,
    pub free_memory: u64,
    pub used_memory: u64,
    pub total_swap: u64,
    pub free_swap: u64,
    pub used_swap: u64,
}

/// Whole megabytes in `kib` KiB, rounded down.
pub open spec fn mb_of_kib(kib: u64) -> u64 {
    kib / 1024
}

/// Width of the column that holds a label.
pub const LABEL_WIDTH: usize = 20;

/// Width of the column that holds a number.
pub const NUMBER_WIDTH: usize = 9;

/// The decimal digits of `n`, most significant first.
pub open spec fn decimal(n: nat) -> Seq<char>
    decreases n,
{
    if n < 10 {
        seq![digit_char(n)]
    } else {
        decimal(n / 10).push(digit_char(n % 10))
    }
}

/// The character of the decimal digit `d`.
pub open spec fn digit_char(d: nat) -> char {
    (('0' as nat) + d) as char
}

/// `k` spaces.
pub open spec fn spaces(k: nat) -> Seq<char> {
    Seq::new(k, |i: int| ' ')
}

/// `s` followed by spaces up to `width` characters.
pub open spec fn pad_right(s: Seq<char>, width: nat) -> Seq<char> {
    if s.len() < width {
        s + spaces((width - s.len()) as nat)
    } else {
        s
    }
}

/// `s` preceded by spaces up to `width` characters.
pub open spec fn pad_left(s: Seq<char>, width: nat) -> Seq<char> {
    if s.len() < width {
        spaces((width - s.len()) as nat) + s
    } else {
        s
    }
}

/// One labelled field: the label left-aligned, the number right-aligned, then the unit.
pub open spec fn field_text(label: Seq<char>, n: u64) -> Seq<char> {
    pad_right(label, 20) + ": "@ + pad_left(decimal(n as nat), 9) + " MB"@
}

/// The three lines of a report: available memory; total, free and used memory;
/// total, free and used swap.
pub open spec fn report_text(r: MemoryReport) -> Seq<char> {
    field_text("available memory"@, r.available_memory) + "\n"@
        + field_text("total memory"@, r.total_memory) + ", "@
        + field_text("free memory"@, r.free_memory) + ", "@
        + field_text("used memory"@, r.used_memory) + "\n"@
        + field_text("total swap"@, r.total_swap) + ", "@
        + field_text("free swap"@, r.free_swap) + ", "@
        + field_text("used swap"@, r.used_swap) + "\n"@
}

/// The character string of the decimal digit `d`.
fn digit_str(d: u64) -> (r: &'static str)
    requires
        d < 10,
    ensures
        r@ == seq![digit_char(d as nat)],
{
    proof {
        reveal_strlit("0");
        reveal_strlit("1");
        reveal_strlit("2");
        reveal_strlit("3");
        reveal_strlit("4");
        reveal_strlit("5");
        reveal_strlit("6");
        reveal_strlit("7");
        reveal_strlit("8");
        reveal_strlit("9");
    }
    let r = match d {
        0 => "0",
        1 => "1",
        2 => "2",
        3 => "3",
        4 => "4",
        5 => "5",
        6 => "6",
        7 => "7",
        8 => "8",
        _ => "9",
    };
    assert(r@ =~= seq![digit_char(d as nat)]);
    r
}

/// Appends the decimal digits of `n`.
pub fn push_decimal(out: &mut String, n: u64)
    ensures
        final(out)@ == old(out)@ + decimal(n as nat),
    decreases n,
{
    if n < 10 {
        out.append(digit_str(n));
    } else {
        push_decimal(out, n / 10);
        out.append(digit_str(n % 10));
        assert(final(out)@ =~= old(out)@ + decimal(n as nat));
    }
}

/// Appends `k` spaces.
pub fn push_spaces(out: &mut String, k: usize)
    ensures
        final(out)@ == old(out)@ + spaces(k as nat),
{
    proof {
        reveal_strlit(" ");
    }
    assert(" "@ =~= seq![' ']);
    let ghost start = out@;
    let mut i: usize = 0;
    while i < k
        invariant
            i <= k,
            out@ == start + spaces(i as nat),
            " "@ == seq![' '],
        decreases k - i,
    {
        out.append(" ");
        i = i + 1;
        assert(out@ =~= start + spaces(i as nat));
    }
}

/// Appends one labelled field.
fn push_field(out: &mut String, label: &str, n: u64)
    ensures
        final(out)@ == old(out)@ + field_text(label@, n),
{
    let ghost start = out@;
    out.append(label);
    let label_len = label.unicode_len();
    if label_len < LABEL_WIDTH {
        push_spaces(out, LABEL_WIDTH - label_len);
    }
    assert(out@ =~= start + pad_right(label@, 20));
    out.append(": ");
    let ghost before_number = out@;
    let mut digits = String::new();
    push_decimal(&mut digits, n);
    let digits_len = digits.as_str().unicode_len();
    if digits_len < NUMBER_WIDTH {
        push_spaces(out, NUMBER_WIDTH - digits_len);
    }
    out.append(digits.as_str());
    assert(out@ =~= before_number + pad_left(decimal(n as nat), 9));
    out.append(" MB");
    assert(out@ =~= start + field_text(label@, n));
}

impl MemoryReport {
    /// The report of a set of counters: each in whole megabytes, rounded down.
    pub fn from_counters(c: &MemoryCounters) -> (r: MemoryReport)
        ensures
            r.total_memory == mb_of_kib(c.total_memory_kib),
            r.available_memory == mb_of_kib(c.available_memory_kib),
            r.free_memory == mb_of_kib(c.free_memory_kib),
            r.used_memory == mb_of_kib(c.used_memory_kib),
            r.total_swap == mb_of_kib(c.total_swap_kib),
            r.free_swap == mb_of_kib(c.free_swap_kib),
            r.used_swap == mb_of_kib(c.used_swap_kib),
    {
        MemoryReport {
            total_memory: c.total_memory_kib / 1024,
            available_memory: c.available_memory_kib / 1024,
            free_memory: c.free_memory_kib / 1024,
            used_memory: c.used_memory_kib / 1024,
            total_swap: c.total_swap_kib / 1024,
            free_swap: c.free_swap_kib / 1024,
            used_swap: c.used_swap_kib / 1024,
        }
    }

    /// The report as three lines of text, each ending in a newline.
    pub fn render(&self) -> (r: String)
        ensures
            r@ == report_text(*self),
    {
        let mut out = String::new();
        push_field(&mut out, "available memory", self.available_memory);
        out.append("\n");
        push_field(&mut out, "total memory", self.total_memory);
        out.append(", ");
        push_field(&mut out, "free memory", self.free_memory);
        out.append(", ");
        push_field(&mut out, "used memory", self.used_memory);
        out.append("\n");
        push_field(&mut out, "total swap", self.total_swap);
        out.append(", ");
        push_field(&mut out, "free swap", self.free_swap);
        out.append(", ");
        push_field(&mut out, "used swap", self.used_swap);
        out.append("\n");
        assert(out@ =~= report_text(*self));
        out
    }
}

/// Two reports of the same machine agree on its total memory, and more memory
/// never reports as less.
pub proof fn lemma_total_memory_consistent(a: MemoryCounters, b: MemoryCounters)
    ensures
        a.total_memory_kib == b.total_memory_kib ==> mb_of_kib(a.total_memory_kib) == mb_of_kib(
            b.total_memory_kib,
        ),
        a.total_memory_kib <= b.total_memory_kib ==> mb_of_kib(a.total_memory_kib) <= mb_of_kib(
            b.total_memory_kib,
        ),
{
    assert(a.total_memory_kib <= b.total_memory_kib ==> a.total_memory_kib / 1024
        <= b.total_memory_kib / 1024) by (nonlinear_arith);
}

} // verus!

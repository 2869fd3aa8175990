//! Memory architecture: the geometry of huge-page backed float buffers (a byte
//! size rounded up to whole 2 MiB pages) and the selection of the memory
//! figures worth reporting from `/proc/meminfo`.

use vstd::prelude::*;
use vstd::string::*;
use crate::text::{has_prefix, is_space, lemma_prefix_survives_trim, split_lines, split_lines_str, str_starts_with, str_views, trim_str, trimmed};

verus! {

/// Size in bytes of one transparent huge page.
pub const HUGE_PAGE_BYTES: usize = 2 * 1024 * 1024;

/// Size in bytes of one `f32` element.
pub const F32_BYTES: usize = 4;

/// `bytes` rounded up to a whole number of huge pages.
pub open spec fn huge_page_round_up(bytes: int) -> int {
    ((bytes + HUGE_PAGE_BYTES - 1) / (HUGE_PAGE_BYTES as int)) * HUGE_PAGE_BYTES
}

/// Rounds a byte count up to the next 2 MiB boundary, as the mapping of a
/// huge-page buffer is sized.
pub fn hugepage_aligned_size(byte_size: usize) -> (aligned: usize)
    requires
        byte_size + (HUGE_PAGE_BYTES - 1) <= usize::MAX,
    ensures
        aligned == huge_page_round_up(byte_size as int),
{
    let x: usize = byte_size + (HUGE_PAGE_BYTES - 1);
    let aligned = x & !(HUGE_PAGE_BYTES - 1);
    assert(x & !(0x1fffffusize) == (x / 0x200000usize) * 0x200000usize) by (bit_vector);
    aligned
}

/// A rounded-up size is a whole number of huge pages, covers the request, and
/// wastes less than one page.
pub proof fn lemma_huge_page_round_up(bytes: int)
    requires
        0 <= bytes,
    ensures
        huge_page_round_up(bytes) % (HUGE_PAGE_BYTES as int) == 0,
        bytes <= huge_page_round_up(bytes) < bytes + HUGE_PAGE_BYTES,
{
    let h = HUGE_PAGE_BYTES as int;
    let q = (bytes + h - 1) / h;
    assert(h == 0x200000);
    vstd::arithmetic::div_mod::lemma_fundamental_div_mod(bytes + h - 1, h);
    vstd::arithmetic::div_mod::lemma_mod_bound(bytes + h - 1, h);
    vstd::arithmetic::div_mod::lemma_mod_multiples_basic(q, h);
    assert(h * q == q * h) by (nonlinear_arith);
}

/// Rounding an already page-aligned size leaves it unchanged.
pub proof fn lemma_huge_page_round_up_idempotent(bytes: int)
    requires
        0 <= bytes,
    ensures
        huge_page_round_up(huge_page_round_up(bytes)) == huge_page_round_up(bytes),
{
    let h = HUGE_PAGE_BYTES as int;
    let q = (bytes + h - 1) / h;
    assert(h == 0x200000);
    assert(q >= 0) by (nonlinear_arith)
        requires q == (bytes + h - 1) / h, bytes >= 0, h == 0x200000;
    vstd::arithmetic::div_mod::lemma_fundamental_div_mod_converse_div(q * h + h - 1, h, q, h - 1);
}


/// The geometry of a buffer of `f32` elements backed by transparent huge pages:
/// how many elements it holds and how many bytes its mapping spans. The mapping
/// always covers the elements and is a whole number of 2 MiB pages.
pub struct HugePageBuffer {
    byte_size: usize,
    len: usize,
}

impl HugePageBuffer {
    #[verifier::type_invariant]
    spec fn geometry_ok(self) -> bool {
        &&& self.len * F32_BYTES + (HUGE_PAGE_BYTES - 1) <= usize::MAX
        &&& self.byte_size == huge_page_round_up(self.len * F32_BYTES)
    }

    /// Number of `f32` elements.
    pub closed spec fn element_count(self) -> nat {
        self.len as nat
    }

    /// Size in bytes of the page-aligned mapping.
    pub closed spec fn mapped_bytes(self) -> nat {
        self.byte_size as nat
    }

    /// Lays out `num_floats` elements over transparent huge pages: the byte
    /// size is rounded up to a 2 MiB boundary.
    pub fn new(num_floats: usize) -> (b: Self)
        requires
            num_floats * F32_BYTES + (HUGE_PAGE_BYTES - 1) <= usize::MAX,
        ensures
            b.element_count() == num_floats,
            b.mapped_bytes() == huge_page_round_up(num_floats * F32_BYTES),
    {
        let byte_size = hugepage_aligned_size(num_floats * F32_BYTES);
        HugePageBuffer { byte_size, len: num_floats }
    }

    /// Number of `f32` elements the buffer holds.
    pub fn len(&self) -> (n: usize)
        ensures
            n == self.element_count(),
    {
        self.len
    }

    /// Whether the buffer holds no elements.
    pub fn is_empty(&self) -> (r: bool)
        ensures
            r == (self.element_count() == 0),
    {
        self.len == 0
    }

    /// Size in bytes of the mapping: whole huge pages covering every element.
    pub fn byte_size(&self) -> (n: usize)
        ensures
            n == self.mapped_bytes(),
            n == huge_page_round_up(self.element_count() * F32_BYTES),
            n % HUGE_PAGE_BYTES == 0,
            self.element_count() * F32_BYTES <= n < self.element_count() * F32_BYTES + HUGE_PAGE_BYTES,
    {
        proof {
            use_type_invariant(self);
            lemma_huge_page_round_up(self.len * F32_BYTES);
        }
        self.byte_size
    }
}

/// A `/proc/meminfo` line worth reporting: total, available and swap memory
/// and the huge-page figures.
pub open spec fn is_reported_meminfo_line(l: Seq<char>) -> bool {
    ||| has_prefix(l, "MemTotal"@)
    ||| has_prefix(l, "MemAvailable"@)
    ||| has_prefix(l, "SwapTotal"@)
    ||| has_prefix(l, "HugePages_Total"@)
    ||| has_prefix(l, "Hugepagesize"@)
    ||| has_prefix(l, "AnonHugePages"@)
}

/// The reported lines among `ls`, trimmed, in order.
pub open spec fn reported_meminfo(ls: Seq<Seq<char>>) -> Seq<Seq<char>>
    decreases ls.len(),
{
    if ls.len() == 0 {
        Seq::empty()
    } else {
        let p = reported_meminfo(ls.drop_last());
        if is_reported_meminfo_line(ls.last()) {
            p.push(trimmed(ls.last()))
        } else {
            p
        }
    }
}

fn reported_line(l: &str) -> (r: bool)
    ensures
        r == is_reported_meminfo_line(l@),
{
    str_starts_with(l, "MemTotal") || str_starts_with(l, "MemAvailable") || str_starts_with(l, "SwapTotal")
        || str_starts_with(l, "HugePages_Total") || str_starts_with(l, "Hugepagesize")
        || str_starts_with(l, "AnonHugePages")
}

/// The memory configuration lines of a `/proc/meminfo` text, trimmed.
pub fn memory_config_lines(meminfo: &str) -> (lines: Vec<String>)
    ensures
        lines@.map_values(|l: String| l@) == reported_meminfo(split_lines(meminfo@)),
{
    let all = split_lines_str(meminfo);
    let ghost ls = split_lines(meminfo@);
    let mut out: Vec<String> = Vec::new();
    let n = all.len();
    let mut i: usize = 0;
    while i < n
        invariant
            n == all.len(),
            i <= n,
            str_views(all@) == ls,
            out@.map_values(|l: String| l@) == reported_meminfo(ls.take(i as int)),
        decreases n - i,
    {
        assert(ls.take(i + 1).drop_last() =~= ls.take(i as int));
        assert(ls[i as int] == all@[i as int]@);
        let ghost before = out@;
        if reported_line(all[i]) {
            out.push(String::from_str(trim_str(all[i])));
            assert(out@.map_values(|l: String| l@) =~= before.map_values(|l: String| l@).push(
                trimmed(ls[i as int]),
            ));
        }
        i = i + 1;
    }
    assert(ls.take(n as int) =~= ls);
    out
}


/// Every reported memory line begins with one of the six keys MemTotal,
/// MemAvailable, SwapTotal, HugePages_Total, Hugepagesize or AnonHugePages;
/// a line with any other key (AnonPages, MemFree, SwapFree, ...) is never reported.
pub proof fn lemma_reported_lines_carry_a_key(ls: Seq<Seq<char>>)
    ensures
        forall|i: int| #![trigger reported_meminfo(ls)[i]]
            0 <= i < reported_meminfo(ls).len() ==> {
                ||| has_prefix(reported_meminfo(ls)[i], "MemTotal"@)
                ||| has_prefix(reported_meminfo(ls)[i], "MemAvailable"@)
                ||| has_prefix(reported_meminfo(ls)[i], "SwapTotal"@)
                ||| has_prefix(reported_meminfo(ls)[i], "HugePages_Total"@)
                ||| has_prefix(reported_meminfo(ls)[i], "Hugepagesize"@)
                ||| has_prefix(reported_meminfo(ls)[i], "AnonHugePages"@)
            },
    decreases ls.len(),
{
    if ls.len() > 0 {
        lemma_reported_lines_carry_a_key(ls.drop_last());
        let p = reported_meminfo(ls.drop_last());
        let l = ls.last();
        assert forall|i: int| 0 <= i < p.len() implies reported_meminfo(ls)[i] == p[i] by {}
        if is_reported_meminfo_line(l) {
            reveal_strlit("MemTotal");
            reveal_strlit("MemAvailable");
            reveal_strlit("SwapTotal");
            reveal_strlit("HugePages_Total");
            reveal_strlit("Hugepagesize");
            reveal_strlit("AnonHugePages");
            if has_prefix(l, "MemTotal"@) { lemma_prefix_survives_trim(l, "MemTotal"@); }
            if has_prefix(l, "MemAvailable"@) { lemma_prefix_survives_trim(l, "MemAvailable"@); }
            if has_prefix(l, "SwapTotal"@) { lemma_prefix_survives_trim(l, "SwapTotal"@); }
            if has_prefix(l, "HugePages_Total"@) { lemma_prefix_survives_trim(l, "HugePages_Total"@); }
            if has_prefix(l, "Hugepagesize"@) { lemma_prefix_survives_trim(l, "Hugepagesize"@); }
            if has_prefix(l, "AnonHugePages"@) { lemma_prefix_survives_trim(l, "AnonHugePages"@); }
        }
    }
}


/// Every line that begins with one of the six keys is reported, trimmed.
pub proof fn lemma_key_lines_are_reported(ls: Seq<Seq<char>>, j: int)
    requires
        0 <= j < ls.len(),
        has_prefix(ls[j], "MemTotal"@) || has_prefix(ls[j], "MemAvailable"@) || has_prefix(ls[j], "SwapTotal"@) || has_prefix(ls[j], "HugePages_Total"@) || has_prefix(ls[j], "Hugepagesize"@) || has_prefix(ls[j], "AnonHugePages"@),
    ensures
        reported_meminfo(ls).contains(trimmed(ls[j])),
    decreases ls.len(),
{
    let p = reported_meminfo(ls.drop_last());
    if j < ls.len() - 1 {
        assert(ls[j] == ls.drop_last()[j]);
        lemma_key_lines_are_reported(ls.drop_last(), j);
        let k = choose|k: int| 0 <= k < p.len() && p[k] == trimmed(ls[j]);
        assert(reported_meminfo(ls)[k] == p[k]);
    } else {
        assert(is_reported_meminfo_line(ls.last()));
        assert(reported_meminfo(ls)[p.len() as int] == trimmed(ls[j]));
    }
}

} // verus!

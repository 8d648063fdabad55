use vstd::prelude::*;

verus! {

/// A number that a configured bound can be compared with: ordered, with a
/// zero that switches the bound off.
pub trait Threshold: Copy {
    /// The number as a mathematical integer.
    spec fn as_int(self) -> int;

    fn is_zero(&self) -> (r: bool)
        ensures
            r == (self.as_int() == 0),
    ;

    fn below(&self, other: &Self) -> (r: bool)
        ensures
            r == (self.as_int() < other.as_int()),
    ;
}

impl Threshold for i32 {
    open spec fn as_int(self) -> int {
        self as int
    }

    fn is_zero(&self) -> (r: bool) {
        *self == 0
    }

    fn below(&self, other: &Self) -> (r: bool) {
        *self < *other
    }
}

impl Threshold for u32 {
    open spec fn as_int(self) -> int {
        self as int
    }

    fn is_zero(&self) -> (r: bool) {
        *self == 0
    }

    fn below(&self, other: &Self) -> (r: bool) {
        *self < *other
    }
}

impl Threshold for i64 {
    open spec fn as_int(self) -> int {
        self as int
    }

    fn is_zero(&self) -> (r: bool) {
        *self == 0
    }

    fn below(&self, other: &Self) -> (r: bool) {
        *self < *other
    }
}

impl Threshold for u64 {
    open spec fn as_int(self) -> int {
        self as int
    }

    fn is_zero(&self) -> (r: bool) {
        *self == 0
    }

    fn below(&self, other: &Self) -> (r: bool) {
        *self < *other
    }
}

/// A configured bound of zero switches its constraint off.
pub open spec fn is_disabled<T: Threshold>(bound: T) -> bool {
    bound.as_int() == 0
}

/// `value > bound`, or the bound is switched off.
pub open spec fn gt_or_disabled<T: Threshold>(value: T, bound: T) -> bool {
    is_disabled(bound) || value.as_int() > bound.as_int()
}

/// `value < bound`, or the bound is switched off.
pub open spec fn lt_or_disabled<T: Threshold>(value: T, bound: T) -> bool {
    is_disabled(bound) || value.as_int() < bound.as_int()
}

/// `value >= bound`, or the bound is switched off.
pub open spec fn geq_or_disabled<T: Threshold>(bound: T, value: T) -> bool {
    is_disabled(bound) || value.as_int() >= bound.as_int()
}

/// `value <= bound`, or the bound is switched off.
pub open spec fn leq_or_disabled<T: Threshold>(bound: T, value: T) -> bool {
    is_disabled(bound) || value.as_int() <= bound.as_int()
}

/// Some value reaches `bound`, or the bound is switched off.
pub open spec fn geq_or_disabled_any<T: Threshold>(vals: Seq<T>, bound: T) -> bool {
    is_disabled(bound) || some_at_least(vals, bound)
}

/// Some value stays within `bound`, or the bound is switched off.
pub open spec fn leq_or_disabled_any<T: Threshold>(vals: Seq<T>, bound: T) -> bool {
    is_disabled(bound) || some_at_most(vals, bound)
}

/// Some element of `vals` is at least `bound`.
pub open spec fn some_at_least<T: Threshold>(vals: Seq<T>, bound: T) -> bool {
    exists|i: int| 0 <= i < vals.len() && #[trigger] vals[i].as_int() >= bound.as_int()
}

/// Some element of `vals` is at most `bound`.
pub open spec fn some_at_most<T: Threshold>(vals: Seq<T>, bound: T) -> bool {
    exists|i: int| 0 <= i < vals.len() && #[trigger] vals[i].as_int() <= bound.as_int()
}

/// Some string of `a` also occurs in `b`.
pub open spec fn share_a_string(a: Seq<String>, b: Seq<String>) -> bool {
    exists|i: int, j: int| 0 <= i < a.len() && 0 <= j < b.len() && a[i]@ == b[j]@
}

/// True if `config_val` is 0 or `to_compare` > `config_val`.
pub fn ignore_or_gt<T: Threshold>(to_compare: T, config_val: T) -> (r: bool)
    ensures
        r == gt_or_disabled(to_compare, config_val),
{
    ignore_config(config_val) || config_val.below(&to_compare)
}

/// True if `config_val` is 0 or `to_compare` < `config_val`.
pub fn ignore_or_lt<T: Threshold>(to_compare: T, config_val: T) -> (r: bool)
    ensures
        r == lt_or_disabled(to_compare, config_val),
{
    ignore_config(config_val) || to_compare.below(&config_val)
}

/// True if `config_val` is 0 or `to_compare` >= `config_val`.
pub fn ignore_or_geq<T: Threshold>(config_val: T, to_compare: T) -> (r: bool)
    ensures
        r == geq_or_disabled(config_val, to_compare),
{
    ignore_config(config_val) || !to_compare.below(&config_val)
}

/// True if `config_val` is 0 or `to_compare` <= `config_val`.
pub fn ignore_or_leq<T: Threshold>(config_val: T, to_compare: T) -> (r: bool)
    ensures
        r == leq_or_disabled(config_val, to_compare),
{
    ignore_config(config_val) || !config_val.below(&to_compare)
}

/// True if `config_val` is 0, or at least one value of `to_compare` is
/// greater than or equal to it. An empty vector meets no enabled bound.
pub fn ignore_or_geq_vec<T: Threshold>(to_compare: &Vec<T>, config_val: T) -> (r: bool)
    ensures
        r == geq_or_disabled_any(to_compare@, config_val),
{
    if ignore_config(config_val) {
        return true;
    }
    let mut i: usize = 0;
    while i < to_compare.len()
        invariant
            0 <= i <= to_compare@.len(),
            forall|k: int| 0 <= k < i ==> #[trigger] to_compare@[k].as_int() < config_val.as_int(),
        decreases to_compare@.len() - i,
    {
        if !to_compare[i].below(&config_val) {
            return true;
        }
        i = i + 1;
    }
    false
}

/// True if `config_val` is 0, or at least one value of `to_compare` is
/// less than or equal to it. An empty vector meets no enabled bound.
pub fn ignore_or_leq_vec<T: Threshold>(to_compare: &Vec<T>, config_val: T) -> (r: bool)
    ensures
        r == leq_or_disabled_any(to_compare@, config_val),
{
    if ignore_config(config_val) {
        return true;
    }
    let mut i: usize = 0;
    while i < to_compare.len()
        invariant
            0 <= i <= to_compare@.len(),
            forall|k: int| 0 <= k < i ==> #[trigger] to_compare@[k].as_int() > config_val.as_int(),
        decreases to_compare@.len() - i,
    {
        if !config_val.below(&to_compare[i]) {
            return true;
        }
        i = i + 1;
    }
    false
}

/// True if at least one string of `to_find` is also in `find_in`.
pub fn match_in_two_vecs(to_find: Vec<String>, find_in: Vec<String>) -> (r: bool)
    ensures
        r == share_a_string(to_find@, find_in@),
{
    let mut i: usize = 0;
    while i < to_find.len()
        invariant
            0 <= i <= to_find@.len(),
            forall|a: int, b: int|
                0 <= a < i && 0 <= b < find_in@.len() ==> to_find@[a]@ != find_in@[b]@,
        decreases to_find@.len() - i,
    {
        let mut j: usize = 0;
        while j < find_in.len()
            invariant
                0 <= i < to_find@.len(),
                0 <= j <= find_in@.len(),
                forall|b: int| 0 <= b < j ==> to_find@[i as int]@ != find_in@[b]@,
            decreases find_in@.len() - j,
        {
            if to_find[i] == find_in[j] {
                return true;
            }
            j = j + 1;
        }
        i = i + 1;
    }
    false
}

/// A bound of zero is met by every value, by every comparator.
pub proof fn lemma_zero_bound_always_met<T: Threshold>(value: T, zero: T, vals: Seq<T>)
    requires
        zero.as_int() == 0,
    ensures
        gt_or_disabled(value, zero),
        lt_or_disabled(value, zero),
        geq_or_disabled(zero, value),
        leq_or_disabled(zero, value),
        geq_or_disabled_any(vals, zero),
        leq_or_disabled_any(vals, zero),
{
}

/// With a bound switched on, a set-valued comparator holds exactly when at
/// least one element meets the bound; so never on an empty set.
pub proof fn lemma_any_means_one_element<T: Threshold>(vals: Seq<T>, bound: T)
    requires
        bound.as_int() != 0,
    ensures
        geq_or_disabled_any(vals, bound) <==> (exists|i: int|
            0 <= i < vals.len() && #[trigger] vals[i].as_int() >= bound.as_int()),
        leq_or_disabled_any(vals, bound) <==> (exists|i: int|
            0 <= i < vals.len() && #[trigger] vals[i].as_int() <= bound.as_int()),
        vals.len() == 0 ==> !geq_or_disabled_any(vals, bound),
        vals.len() == 0 ==> !leq_or_disabled_any(vals, bound),
{
}

/// True if the value is 0, the sentinel for a disabled setting.
pub fn ignore_config<T: Threshold>(val: T) -> (r: bool)
    ensures
        r == is_disabled(val),
{
    val.is_zero()
}

} // verus!

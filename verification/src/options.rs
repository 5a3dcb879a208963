//! The engine's runtime option table, modelled as a verified value.
//!
//! The engine keeps one table of numeric runtime options, indexed by the
//! constants below; boolean options hold 1 or 0, and every option starts out
//! false. [`OptionTable`] carries that table as plain state with exact
//! contracts for reading, setting, and default-setting an option, so the
//! rules — in particular that a default only lands on an option nothing has
//! set yet — are checked rather than assumed.
#![allow(nonstandard_style)]

use vstd::prelude::*;

verus! {

/// A runtime option index.
pub type mi_option_t = i32;

/// Print error messages to standard error.
pub const mi_option_show_errors: mi_option_t = 0;

/// Print statistics to standard error when the program is done.
pub const mi_option_show_stats: mi_option_t = 1;

/// Print verbose messages to standard error.
pub const mi_option_verbose: mi_option_t = 2;

/// Use large OS pages (2MiB in size) if possible.
pub const mi_option_large_os_pages: mi_option_t = 6;

/// The number of huge OS pages (1GiB in size) to reserve at program start.
pub const mi_option_reserve_huge_os_pages: mi_option_t = 7;

/// Reserve the huge OS pages at a specific NUMA node.
pub const mi_option_reserve_huge_os_pages_at: mi_option_t = 8;

/// Reserve the given amount of OS memory at program start.
pub const mi_option_reserve_os_memory: mi_option_t = 9;

/// The first N segments per thread are not eagerly committed.
pub const mi_option_eager_commit_delay: mi_option_t = 14;

/// Pretend there are at most N NUMA nodes.
pub const mi_option_use_numa_nodes: mi_option_t = 16;

/// Do not use OS memory for allocation, only pre-reserved arenas.
pub const mi_option_limit_os_alloc: mi_option_t = 17;

/// OS tag to assign to the engine's memory.
pub const mi_option_os_tag: mi_option_t = 18;

/// Maximum number of errors to report.
pub const mi_option_max_errors: mi_option_t = 19;

/// Maximum number of warnings to report.
pub const mi_option_max_warnings: mi_option_t = 20;

/// Maximum number of segments a thread reclaims.
pub const mi_option_max_segment_reclaim: mi_option_t = 21;

/// One past the last valid option index.
pub const _mi_option_last: mi_option_t = 26;

/// The engine's option table: one numeric value per option index below
/// [`_mi_option_last`], plus the record of which options have been
/// initialized by an explicit set.
pub struct OptionTable {
    values: Vec<i64>,
    inited: Vec<bool>,
}

impl OptionTable {
    /// The value of each option, by index.
    pub closed spec fn values_seq(&self) -> Seq<i64> {
        self.values@
    }

    /// Whether each option, by index, has been initialized by
    /// [`Self::set`] or [`Self::set_enabled`].
    pub closed spec fn inited_seq(&self) -> Seq<bool> {
        self.inited@
    }

    /// Both records cover exactly the valid option indices.
    pub open spec fn wf(&self) -> bool {
        &&& self.values_seq().len() == _mi_option_last
        &&& self.inited_seq().len() == _mi_option_last
    }

    /// A fresh table: all options are false (0) by default, none initialized.
    pub fn new() -> (t: OptionTable)
        ensures
            t.wf(),
            forall|i: int| 0 <= i < _mi_option_last ==> t.values_seq()[i] == 0,
            forall|i: int| 0 <= i < _mi_option_last ==> !t.inited_seq()[i],
    {
        let n = _mi_option_last as usize;
        let mut values: Vec<i64> = Vec::new();
        let mut inited: Vec<bool> = Vec::new();
        let mut k: usize = 0;
        while k < n
            invariant
                k <= n,
                values@.len() == k,
                inited@.len() == k,
                forall|i: int| 0 <= i < k ==> values@[i] == 0,
                forall|i: int| 0 <= i < k ==> !inited@[i],
            decreases n - k,
        {
            values.push(0);
            inited.push(false);
            k = k + 1;
        }
        OptionTable { values, inited }
    }

    /// The current value of `option`.
    pub fn get(&self, option: mi_option_t) -> (v: i64)
        requires
            self.wf(),
            0 <= option < _mi_option_last,
        ensures
            v == self.values_seq()[option as int],
    {
        self.values[option as usize]
    }

    /// Whether `option` currently holds a non-zero (enabled) value.
    pub fn is_enabled(&self, option: mi_option_t) -> (r: bool)
        requires
            self.wf(),
            0 <= option < _mi_option_last,
        ensures
            r == (self.values_seq()[option as int] != 0),
    {
        self.get(option) != 0
    }

    /// Set `option` to `value` and mark it initialized.
    pub fn set(&mut self, option: mi_option_t, value: i64)
        requires
            old(self).wf(),
            0 <= option < _mi_option_last,
        ensures
            final(self).wf(),
            final(self).values_seq() == old(self).values_seq().update(option as int, value),
            final(self).inited_seq() == old(self).inited_seq().update(option as int, true),
    {
        self.values.set(option as usize, value);
        self.inited.set(option as usize, true);
    }

    /// Enable or disable `option` and mark it initialized.
    pub fn set_enabled(&mut self, option: mi_option_t, enable: bool)
        requires
            old(self).wf(),
            0 <= option < _mi_option_last,
        ensures
            final(self).wf(),
            final(self).values_seq() == old(self).values_seq().update(
                option as int,
                if enable {
                    1i64
                } else {
                    0i64
                },
            ),
            final(self).inited_seq() == old(self).inited_seq().update(option as int, true),
    {
        if enable {
            self.set(option, 1)
        } else {
            self.set(option, 0)
        }
    }

    /// Set `option` to `value` only if nothing has initialized it yet; an
    /// initialized option is left exactly as it is. A default never counts as
    /// initialization itself.
    pub fn set_default(&mut self, option: mi_option_t, value: i64)
        requires
            old(self).wf(),
            0 <= option < _mi_option_last,
        ensures
            final(self).wf(),
            final(self).inited_seq() == old(self).inited_seq(),
            old(self).inited_seq()[option as int] ==> final(self).values_seq() == old(self).values_seq(),
            !old(self).inited_seq()[option as int] ==> final(self).values_seq() == old(self).values_seq().update(option as int, value),
    {
        if !self.inited[option as usize] {
            self.values.set(option as usize, value);
        }
    }

    /// Enable or disable `option` only if nothing has initialized it yet.
    pub fn set_enabled_default(&mut self, option: mi_option_t, enable: bool)
        requires
            old(self).wf(),
            0 <= option < _mi_option_last,
        ensures
            final(self).wf(),
            final(self).inited_seq() == old(self).inited_seq(),
            old(self).inited_seq()[option as int] ==> final(self).values_seq() == old(self).values_seq(),
            !old(self).inited_seq()[option as int] ==> final(self).values_seq() == old(self).values_seq().update(
                option as int,
                if enable {
                    1i64
                } else {
                    0i64
                },
            ),
    {
        if enable {
            self.set_default(option, 1)
        } else {
            self.set_default(option, 0)
        }
    }
}

} // verus!

//! Page bounds of the listing endpoints: each resource clamps the requested
//! count and offset to its own maximum.
use vstd::prelude::*;

verus! {

/// A listing endpoint.
#[derive(Clone, Copy, Debug, PartialEq, Eq, Structural)]
pub enum Listing {
    Subjects,
    Classes,
    Rooms,
    Students,
    Teachers,
    Principals,
    Marks,
}

/// The bounds of one listing: the count used when none is asked for, and the
/// largest count and offset it serves.
#[derive(Clone, Copy, Debug, PartialEq, Eq, Structural)]
pub struct Limits {
    pub default_count: i64,
    pub max_count: i64,
    pub max_offset: i64,
}

/// The limits of each listing.
pub open spec fn limits_of(l: Listing) -> Limits {
    match l {
        Listing::Subjects => Limits { default_count: 50, max_count: 50, max_offset: 5000 },
        Listing::Classes => Limits { default_count: 50, max_count: 50, max_offset: 5000 },
        Listing::Rooms => Limits { default_count: 50, max_count: 100, max_offset: 5000 },
        Listing::Students => Limits { default_count: 50, max_count: 100, max_offset: 10000 },
        Listing::Teachers => Limits { default_count: 50, max_count: 100, max_offset: 2000 },
        Listing::Principals => Limits { default_count: 50, max_count: 100, max_offset: 10000 },
        Listing::Marks => Limits { default_count: 500, max_count: 500, max_offset: 10000 },
    }
}

/// `v` brought into `[lo, hi]`.
pub open spec fn clamped(v: int, lo: int, hi: int) -> int {
    if v < lo {
        lo
    } else if v > hi {
        hi
    } else {
        v
    }
}

/// The LIMIT and OFFSET of one listing query.
#[derive(Clone, Copy, Debug, PartialEq, Eq, Structural)]
pub struct Page {
    pub count: i64,
    pub offset: i64,
}

/// The page served for a request: an absent count is the listing's default,
/// an absent offset is zero, and both are clamped to `[0, max]`.
pub open spec fn page_of(l: Listing, count: Option<i64>, offset: Option<i64>) -> Page {
    let lim = limits_of(l);
    let c = match count {
        Some(c) => c as int,
        None => lim.default_count as int,
    };
    let o = match offset {
        Some(o) => o as int,
        None => 0,
    };
    Page {
        count: clamped(c, 0, lim.max_count as int) as i64,
        offset: clamped(o, 0, lim.max_offset as int) as i64,
    }
}

fn clamp(v: i64, lo: i64, hi: i64) -> (r: i64)
    requires
        lo <= hi,
    ensures
        r as int == clamped(v as int, lo as int, hi as int),
{
    if v < lo {
        lo
    } else if v > hi {
        hi
    } else {
        v
    }
}

impl Listing {
    /// The limits of this listing.
    pub fn limits(&self) -> (r: Limits)
        ensures
            r == limits_of(*self),
    {
        match self {
            Listing::Subjects => Limits { default_count: 50, max_count: 50, max_offset: 5000 },
            Listing::Classes => Limits { default_count: 50, max_count: 50, max_offset: 5000 },
            Listing::Rooms => Limits { default_count: 50, max_count: 100, max_offset: 5000 },
            Listing::Students => Limits { default_count: 50, max_count: 100, max_offset: 10000 },
            Listing::Teachers => Limits { default_count: 50, max_count: 100, max_offset: 2000 },
            Listing::Principals => Limits { default_count: 50, max_count: 100, max_offset: 10000 },
            Listing::Marks => Limits { default_count: 500, max_count: 500, max_offset: 10000 },
        }
    }

    /// The page served for a requested count and offset.
    pub fn page(&self, count: Option<i64>, offset: Option<i64>) -> (r: Page)
        ensures
            r == page_of(*self, count, offset),
            0 <= r.count <= limits_of(*self).max_count,
            0 <= r.offset <= limits_of(*self).max_offset,
    {
        let lim = self.limits();
        let c = match count {
            Some(c) => c,
            None => lim.default_count,
        };
        let o = match offset {
            Some(o) => o,
            None => 0,
        };
        Page { count: clamp(c, 0, lim.max_count), offset: clamp(o, 0, lim.max_offset) }
    }
}

/// The range of mark values a listing asks for: an absent bound is the
/// lowest (2) or the highest (5) mark.
pub fn mark_range(least: Option<i16>, most: Option<i16>) -> (r: (i16, i16))
    ensures
        r.0 == match least {
            Some(v) => v,
            None => 2i16,
        },
        r.1 == match most {
            Some(v) => v,
            None => 5i16,
        },
{
    let lo = match least {
        Some(v) => v,
        None => 2,
    };
    let hi = match most {
        Some(v) => v,
        None => 5,
    };
    (lo, hi)
}

/// Whatever count and offset are asked for, a listing never serves more rows
/// than its maximum count, nor skips more than its maximum offset, and never
/// a negative number of either.
pub proof fn lemma_page_within_limits(l: Listing, count: Option<i64>, offset: Option<i64>)
    ensures
        0 <= page_of(l, count, offset).count <= limits_of(l).max_count,
        0 <= page_of(l, count, offset).offset <= limits_of(l).max_offset,
        count is Some && 0 <= count->0 <= limits_of(l).max_count ==> page_of(
            l,
            count,
            offset,
        ).count == count->0,
{
}

} // verus!

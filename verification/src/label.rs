//! The closed label table of the inverted report.
//!
//! The host's time formatter scales a batch of durations and names the
//! magnitude it chose with one of five time-unit labels (`ps`, `ns`,
//! `µs`, `ms`, `s`). The inverted report combines that label with the
//! category of the throughput declaration (`elem` or `byte`) into a
//! compound label such as `ns/elem`. The table is closed: any pairing
//! outside the two domains degrades to a fixed sentinel rather than
//! failing, although such a pairing is unreachable when the inputs come
//! from the formatter and from a [`ThroughputSpec`](crate::ThroughputSpec).

use vstd::prelude::*;

use crate::throughput::Category;

verus! {

/// A time magnitude the host's time formatter can choose, from
/// picoseconds up to seconds.
#[derive(Clone, Copy, PartialEq, Eq, Structural, Debug)]
pub enum TimeUnit {
    Picosecond,
    Nanosecond,
    Microsecond,
    Millisecond,
    Second,
}

/// The label the time formatter uses for a time unit.
pub open spec fn time_unit_text(t: TimeUnit) -> Seq<char> {
    match t {
        TimeUnit::Picosecond => "ps"@,
        TimeUnit::Nanosecond => "ns"@,
        TimeUnit::Microsecond => "µs"@,
        TimeUnit::Millisecond => "ms"@,
        TimeUnit::Second => "s"@,
    }
}

/// The label of a throughput category.
pub open spec fn category_text(c: Category) -> Seq<char> {
    match c {
        Category::Element => "elem"@,
        Category::Byte => "byte"@,
    }
}

/// The compound label of the inverted report: the time-unit label, a
/// slash, and the category label.
pub open spec fn compound_text(t: TimeUnit, c: Category) -> Seq<char> {
    time_unit_text(t) + seq!['/'] + category_text(c)
}

/// The sentinel label returned for a pairing outside the closed domains.
pub open spec fn sentinel_text() -> Seq<char> {
    "UNEXPECTED"@
}

/// Which time unit a time formatter's label names, if any.
pub open spec fn spec_parse_time_unit(s: Seq<char>) -> Option<TimeUnit> {
    if s == "ps"@ {
        Some(TimeUnit::Picosecond)
    } else if s == "ns"@ {
        Some(TimeUnit::Nanosecond)
    } else if s == "µs"@ {
        Some(TimeUnit::Microsecond)
    } else if s == "ms"@ {
        Some(TimeUnit::Millisecond)
    } else if s == "s"@ {
        Some(TimeUnit::Second)
    } else {
        None
    }
}

/// Which category a category label names, if any.
pub open spec fn spec_parse_category(s: Seq<char>) -> Option<Category> {
    if s == "elem"@ {
        Some(Category::Element)
    } else if s == "byte"@ {
        Some(Category::Byte)
    } else {
        None
    }
}

/// Returns the time unit that a time formatter's label names, or `None`
/// for a label outside the closed set.
pub fn parse_time_unit(s: &str) -> (r: Option<TimeUnit>)
    ensures
        r == spec_parse_time_unit(s@),
{
    let v = s.to_owned();
    if v == "ps".to_owned() {
        Some(TimeUnit::Picosecond)
    } else if v == "ns".to_owned() {
        Some(TimeUnit::Nanosecond)
    } else if v == "µs".to_owned() {
        Some(TimeUnit::Microsecond)
    } else if v == "ms".to_owned() {
        Some(TimeUnit::Millisecond)
    } else if v == "s".to_owned() {
        Some(TimeUnit::Second)
    } else {
        None
    }
}

/// Returns the category that a category label names, or `None` for a
/// label outside the closed set.
pub fn parse_category(s: &str) -> (r: Option<Category>)
    ensures
        r == spec_parse_category(s@),
{
    let v = s.to_owned();
    if v == "elem".to_owned() {
        Some(Category::Element)
    } else if v == "byte".to_owned() {
        Some(Category::Byte)
    } else {
        None
    }
}

impl Category {
    /// Returns the label of the category, `elem` or `byte`.
    pub fn label(&self) -> (r: &'static str)
        ensures
            r@ == category_text(*self),
    {
        match *self {
            Category::Element => "elem",
            Category::Byte => "byte",
        }
    }
}

/// Returns the compound label of a time unit and a category: the two
/// labels joined by a slash.
pub fn compound_label(t: TimeUnit, c: Category) -> (r: &'static str)
    ensures
        r@ == compound_text(t, c),
{
    match (t, c) {
        (TimeUnit::Picosecond, Category::Element) => {
            proof {
                reveal_strlit("ps");
                reveal_strlit("elem");
                reveal_strlit("ps/elem");
                assert("ps/elem"@ =~= compound_text(t, c));
            }
            "ps/elem"
        },
        (TimeUnit::Nanosecond, Category::Element) => {
            proof {
                reveal_strlit("ns");
                reveal_strlit("elem");
                reveal_strlit("ns/elem");
                assert("ns/elem"@ =~= compound_text(t, c));
            }
            "ns/elem"
        },
        (TimeUnit::Microsecond, Category::Element) => {
            proof {
                reveal_strlit("µs");
                reveal_strlit("elem");
                reveal_strlit("µs/elem");
                assert("µs/elem"@ =~= compound_text(t, c));
            }
            "µs/elem"
        },
        (TimeUnit::Millisecond, Category::Element) => {
            proof {
                reveal_strlit("ms");
                reveal_strlit("elem");
                reveal_strlit("ms/elem");
                assert("ms/elem"@ =~= compound_text(t, c));
            }
            "ms/elem"
        },
        (TimeUnit::Second, Category::Element) => {
            proof {
                reveal_strlit("s");
                reveal_strlit("elem");
                reveal_strlit("s/elem");
                assert("s/elem"@ =~= compound_text(t, c));
            }
            "s/elem"
        },
        (TimeUnit::Picosecond, Category::Byte) => {
            proof {
                reveal_strlit("ps");
                reveal_strlit("byte");
                reveal_strlit("ps/byte");
                assert("ps/byte"@ =~= compound_text(t, c));
            }
            "ps/byte"
        },
        (TimeUnit::Nanosecond, Category::Byte) => {
            proof {
                reveal_strlit("ns");
                reveal_strlit("byte");
                reveal_strlit("ns/byte");
                assert("ns/byte"@ =~= compound_text(t, c));
            }
            "ns/byte"
        },
        (TimeUnit::Microsecond, Category::Byte) => {
            proof {
                reveal_strlit("µs");
                reveal_strlit("byte");
                reveal_strlit("µs/byte");
                assert("µs/byte"@ =~= compound_text(t, c));
            }
            "µs/byte"
        },
        (TimeUnit::Millisecond, Category::Byte) => {
            proof {
                reveal_strlit("ms");
                reveal_strlit("byte");
                reveal_strlit("ms/byte");
                assert("ms/byte"@ =~= compound_text(t, c));
            }
            "ms/byte"
        },
        (TimeUnit::Second, Category::Byte) => {
            proof {
                reveal_strlit("s");
                reveal_strlit("byte");
                reveal_strlit("s/byte");
                assert("s/byte"@ =~= compound_text(t, c));
            }
            "s/byte"
        },
    }
}

/// The label table's domains are closed: the label of every time unit
/// parses back to that unit, and the label of every category parses back
/// to that category. A caller that pairs a label written by the time
/// formatter with a label written by a throughput declaration therefore
/// never reaches the sentinel of [`static_denom`].
pub proof fn lemma_label_domains_closed(t: TimeUnit, c: Category)
    ensures
        spec_parse_time_unit(time_unit_text(t)) == Some(t),
        spec_parse_category(category_text(c)) == Some(c),
{
    reveal_strlit("ps");
    reveal_strlit("ns");
    reveal_strlit("µs");
    reveal_strlit("ms");
    reveal_strlit("s");
    reveal_strlit("elem");
    reveal_strlit("byte");
    assert("ps"@[0] == 'p');
    assert("ns"@[0] == 'n');
    assert("µs"@[0] == 'µ');
    assert("ms"@[0] == 'm');
    assert("s"@.len() == 1);
    assert("ps"@.len() == 2);
    assert("ns"@.len() == 2);
    assert("µs"@.len() == 2);
    assert("ms"@.len() == 2);
    assert("elem"@[0] == 'e');
    assert("byte"@[0] == 'b');
}

/// Combines a time formatter's time-unit label with a category label
/// into the compound label of the inverted report. A pairing outside
/// the two closed sets yields the sentinel label instead of failing.
pub fn static_denom(time_denom: &str, unit_denom: &str) -> (r: &'static str)
    ensures
        spec_parse_time_unit(time_denom@) is Some && spec_parse_category(unit_denom@) is Some
            ==> r@ == compound_text(
                spec_parse_time_unit(time_denom@)->0,
                spec_parse_category(unit_denom@)->0,
            ),
        (spec_parse_time_unit(time_denom@) is None || spec_parse_category(unit_denom@) is None)
            ==> r@ == sentinel_text(),
{
    match (parse_time_unit(time_denom), parse_category(unit_denom)) {
        (Some(t), Some(c)) => compound_label(t, c),
        _ => "UNEXPECTED",
    }
}

} // verus!


//! Task priorities: their names in the storage format, their labels and
//! markers on screen, and the order in which the `p` key cycles them.

use vstd::prelude::*;

use crate::text::str_eq;

verus! {

/// How urgent a task is.
#[derive(Clone, Copy, PartialEq, Eq, Debug, Structural)]
pub enum Priority {
    Low,
    Medium,
    High,
    Critical,
}

/// The coloured marker shown next to a task of priority `p`.
pub open spec fn emoji_of(p: Priority) -> Seq<char> {
    match p {
        Priority::Low => "🟢"@,
        Priority::Medium => "🟡"@,
        Priority::High => "🟠"@,
        Priority::Critical => "🔴"@,
    }
}

/// The label shown in the task details for priority `p`.
pub open spec fn label_of(p: Priority) -> Seq<char> {
    match p {
        Priority::Low => "Низкий"@,
        Priority::Medium => "Средний"@,
        Priority::High => "Высокий"@,
        Priority::Critical => "Критический"@,
    }
}

/// The name under which priority `p` is stored.
pub open spec fn name_of(p: Priority) -> Seq<char> {
    match p {
        Priority::Low => "Low"@,
        Priority::Medium => "Medium"@,
        Priority::High => "High"@,
        Priority::Critical => "Critical"@,
    }
}

/// The priority a stored name stands for; unknown names mean `Low`.
pub open spec fn priority_named(s: Seq<char>) -> Priority {
    if s == "Critical"@ {
        Priority::Critical
    } else if s == "High"@ {
        Priority::High
    } else if s == "Medium"@ {
        Priority::Medium
    } else {
        Priority::Low
    }
}

/// The priority that follows `p` when it is raised: Low, Medium, High,
/// Critical, and back to Low.
pub open spec fn raised(p: Priority) -> Priority {
    match p {
        Priority::Low => Priority::Medium,
        Priority::Medium => Priority::High,
        Priority::High => Priority::Critical,
        Priority::Critical => Priority::Low,
    }
}

/// The marker shown for a priority.
pub fn priority_emoji(p: Priority) -> (s: &'static str)
    ensures
        s@ == emoji_of(p),
{
    match p {
        Priority::Low => "🟢",
        Priority::Medium => "🟡",
        Priority::High => "🟠",
        Priority::Critical => "🔴",
    }
}

/// The label shown for a priority.
pub fn priority_label(p: Priority) -> (s: &'static str)
    ensures
        s@ == label_of(p),
{
    match p {
        Priority::Low => "Низкий",
        Priority::Medium => "Средний",
        Priority::High => "Высокий",
        Priority::Critical => "Критический",
    }
}

/// Reads a stored priority name; anything unknown is `Low`.
pub fn priority_from_str(s: &str) -> (p: Priority)
    ensures
        p == priority_named(s@),
{
    if str_eq(s, "Critical") {
        Priority::Critical
    } else if str_eq(s, "High") {
        Priority::High
    } else if str_eq(s, "Medium") {
        Priority::Medium
    } else {
        Priority::Low
    }
}

/// The name under which a priority is stored.
pub fn priority_to_str(p: Priority) -> (s: &'static str)
    ensures
        s@ == name_of(p),
{
    match p {
        Priority::Low => "Low",
        Priority::Medium => "Medium",
        Priority::High => "High",
        Priority::Critical => "Critical",
    }
}

/// The next priority in the cycle Low, Medium, High, Critical, Low.
pub fn raise_priority(p: Priority) -> (r: Priority)
    ensures
        r == raised(p),
{
    match p {
        Priority::Low => Priority::Medium,
        Priority::Medium => Priority::High,
        Priority::High => Priority::Critical,
        Priority::Critical => Priority::Low,
    }
}

/// Reading back the stored name of a priority gives that priority.
pub proof fn law_priority_name_round_trip(p: Priority)
    ensures
        priority_named(name_of(p)) == p,
{
    reveal_strlit("Low");
    reveal_strlit("Medium");
    reveal_strlit("High");
    reveal_strlit("Critical");
    assert("Low"@.len() == 3);
    assert("Medium"@.len() == 6);
    assert("High"@.len() == 4);
    assert("Critical"@.len() == 8);
}

/// Raising a priority four times gives it back; fewer times never does.
pub proof fn law_raise_cycles_in_four(p: Priority)
    ensures
        raised(raised(raised(raised(p)))) == p,
        raised(p) != p,
        raised(raised(p)) != p,
        raised(raised(raised(p))) != p,
{
}

} // verus!

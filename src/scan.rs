//! Adapter choice and the scan for the target peripheral.
use vstd::prelude::*;

verus! {

/// The advertised local name of the fan controller.
pub const TARGET_NAME: &'static str = "Adafruit Bluefruit LE";

/// Milliseconds to wait between two passes over the seen peripherals.
pub const POLL_INTERVAL_MS: u64 = 10;

/// Text shown for a peripheral that has advertised no name yet.
pub const UNKNOWN_NAME: &'static str = "Unknown";

/// A peripheral is the target when it has advertised a local name and that
/// name is exactly the target name, character for character.
pub open spec fn is_target_name(name: Option<String>) -> bool {
    match name {
        Some(n) => n@ == TARGET_NAME@,
        None => false,
    }
}

/// The first index in `names` whose entry is the target, if any.
pub open spec fn first_target(names: Seq<Option<String>>) -> Option<int> {
    if exists|i: int| 0 <= i < names.len() && is_target_name(#[trigger] names[i]) {
        Some(
            choose|i: int|
                0 <= i < names.len() && is_target_name(names[i]) && forall|j: int|
                    0 <= j < i ==> !is_target_name(#[trigger] names[j]),
        )
    } else {
        None
    }
}

/// Picks the first of `count` enumerated adapters, if there is one.
pub fn get_first_adapter(count: usize) -> (r: Option<usize>)
    ensures
        count == 0 ==> r is None,
        count > 0 ==> r == Some(0usize),
{
    if count == 0 {
        None
    } else {
        Some(0)
    }
}

/// One pass of the scan: `names[i]` is the local name that peripheral `i`
/// has advertised so far, `None` when it has advertised no properties or no
/// name. Returns the index of the first peripheral named exactly like the
/// target; a peripheral without a name never matches.
pub fn find_adafruit_ble(names: &Vec<Option<String>>) -> (r: Option<usize>)
    ensures
        match r {
            Some(i) => i < names@.len() && is_target_name(names@[i as int]) && forall|j: int|
                0 <= j < i ==> !is_target_name(#[trigger] names@[j]),
            None => forall|j: int|
                0 <= j < names@.len() ==> !is_target_name(#[trigger] names@[j]),
        },
        r matches Some(i) ==> first_target(names@) == Some(i as int),
        r is None <==> first_target(names@) is None,
{
    let target = String::from_str(TARGET_NAME);
    let mut i: usize = 0;
    while i < names.len()
        invariant
            i <= names@.len(),
            target@ == TARGET_NAME@,
            forall|j: int| 0 <= j < i ==> !is_target_name(#[trigger] names@[j]),
        decreases names@.len() - i,
    {
        let hit = match &names[i] {
            Some(n) => *n == target,
            None => false,
        };
        if hit {
            proof {
                let k = i as int;
                assert(is_target_name(names@[k]));
                let c = choose|c: int|
                    0 <= c < names@.len() && is_target_name(names@[c]) && forall|j: int|
                        0 <= j < c ==> !is_target_name(#[trigger] names@[j]);
                if c < k {
                    assert(!is_target_name(names@[c]));
                } else if c > k {
                    assert(!is_target_name(names@[k]));
                }
            }
            return Some(i);
        }
        i = i + 1;
    }
    None
}

/// The name to report for a peripheral: `properties` is `None` when it has
/// advertised no properties yet, else its optional local name. Falls back to
/// `"Unknown"` when either is absent.
pub fn get_peripheral_local_name(properties: Option<Option<String>>) -> (r: String)
    ensures
        match properties {
            Some(Some(n)) => r@ == n@,
            _ => r@ == UNKNOWN_NAME@,
        },
{
    match properties {
        Some(Some(n)) => n,
        _ => String::from_str(UNKNOWN_NAME),
    }
}

} // verus!

use vstd::prelude::*;

use crate::text::{contains, occurs_in, str_eq, trim, trimmed};

verus! {

/// What was read of one power supply: its `type` file and its `status`
/// file, `None` where the file could not be read.
pub struct SupplyReading {
    pub kind: Option<String>,
    pub status: Option<String>,
}

/// What was read of one input device: its `device/name` file and its
/// `device/state` file, `None` where the file could not be read.
pub struct InputDeviceReading {
    pub name: Option<String>,
    pub state: Option<String>,
}

/// Whether the text of a supply's `type` file names a battery.
pub open spec fn names_battery(kind: Seq<char>) -> bool {
    trimmed(kind) == "Battery"@
}

/// Whether the text of an input device's name marks it as a lid switch.
pub open spec fn names_lid(name: Seq<char>) -> bool {
    occurs_in(trimmed(name), "Lid"@)
}

/// Whether a supply reading settles the battery question: a battery whose
/// status could be read.
pub open spec fn settles_battery(r: SupplyReading) -> bool {
    &&& r.kind matches Some(k) && names_battery(k@)
    &&& r.status is Some
}

/// The answer of the first reading that settles the battery question:
/// whether that battery is discharging; false when none settles it.
pub open spec fn discharging_in(readings: Seq<SupplyReading>) -> bool
    decreases readings.len(),
{
    if readings.len() == 0 {
        false
    } else if settles_battery(readings[0]) {
        trimmed(readings[0].status.unwrap()@) == "Discharging"@
    } else {
        discharging_in(readings.drop_first())
    }
}

/// Whether an input device reading settles the lid question: a lid switch
/// whose state could be read.
pub open spec fn settles_lid(r: InputDeviceReading) -> bool {
    &&& r.name matches Some(n) && names_lid(n@)
    &&& r.state is Some
}

/// The answer of the first input device that settles the lid question.
pub open spec fn lid_closed_in(inputs: Seq<InputDeviceReading>) -> bool
    decreases inputs.len(),
{
    if inputs.len() == 0 {
        false
    } else if settles_lid(inputs[0]) {
        trimmed(inputs[0].state.unwrap()@) == "closed"@
    } else {
        lid_closed_in(inputs.drop_first())
    }
}

/// Whether a supply whose `type` file reads `kind` is a battery.
pub fn is_battery_supply(kind: &str) -> (battery: bool)
    ensures
        battery == names_battery(kind@),
{
    str_eq(trim(kind), "Battery")
}

/// Whether an input device whose name reads `name` is a lid switch.
pub fn is_lid_device(name: &str) -> (lid: bool)
    ensures
        lid == names_lid(name@),
{
    contains(trim(name), "Lid")
}

/// Whether the machine runs on a discharging battery, from the readings of
/// its power supplies in directory order.
pub fn battery_discharging(readings: &Vec<SupplyReading>) -> (discharging: bool)
    ensures
        discharging == discharging_in(readings@),
        discharging <==> exists|i: int|
            first_readable_battery(readings@, i) && trimmed(readings@[i].status.unwrap()@)
                == "Discharging"@,
{
    proof {
        lemma_discharging_is_first_battery_status(readings@);
    }
    let mut i: usize = 0;
    assert(readings@.subrange(0, readings@.len() as int) =~= readings@);
    while i < readings.len()
        invariant
            i <= readings@.len(),
            discharging_in(readings@) == discharging_in(readings@.subrange(i as int, readings@.len() as int)),
        decreases readings@.len() - i,
    {
        let r = &readings[i];
        proof {
            lemma_discharging_is_first_battery_status(readings@);
        }
        let ghost rest = readings@.subrange(i as int, readings@.len() as int);
        assert(rest[0] == readings@[i as int]);
        assert(rest.drop_first() =~= readings@.subrange(i + 1, readings@.len() as int));
        if let Some(kind) = &r.kind {
            if is_battery_supply(kind.as_str()) {
                if let Some(status) = &r.status {
                    return str_eq(trim(status.as_str()), "Discharging");
                }
            }
        }
        i = i + 1;
    }
    false
}

/// Whether the laptop lid is closed: the ACPI lid state file, when it can
/// be read, decides by mentioning `closed`; otherwise the first input device
/// that is a lid switch with a readable state does.
pub fn lid_reports_closed(acpi_state: Option<String>, inputs: &Vec<InputDeviceReading>) -> (closed: bool)
    ensures
        closed == match acpi_state {
            Some(text) => occurs_in(text@, "closed"@),
            None => lid_closed_in(inputs@),
        },
        acpi_state is None ==> (closed <==> exists|i: int|
            first_readable_lid(inputs@, i) && trimmed(inputs@[i].state.unwrap()@) == "closed"@),
{
    proof {
        lemma_lid_closed_is_first_lid_state(inputs@);
    }
    if let Some(text) = &acpi_state {
        return contains(text.as_str(), "closed");
    }
    let mut i: usize = 0;
    assert(inputs@.subrange(0, inputs@.len() as int) =~= inputs@);
    while i < inputs.len()
        invariant
            i <= inputs@.len(),
            acpi_state is None,
            lid_closed_in(inputs@) == lid_closed_in(inputs@.subrange(i as int, inputs@.len() as int)),
        decreases inputs@.len() - i,
    {
        let r = &inputs[i];
        proof {
            lemma_lid_closed_is_first_lid_state(inputs@);
        }
        let ghost rest = inputs@.subrange(i as int, inputs@.len() as int);
        assert(rest[0] == inputs@[i as int]);
        assert(rest.drop_first() =~= inputs@.subrange(i + 1, inputs@.len() as int));
        if let Some(name) = &r.name {
            if is_lid_device(name.as_str()) {
                if let Some(state) = &r.state {
                    return str_eq(trim(state.as_str()), "closed");
                }
            }
        }
        i = i + 1;
    }
    false
}

/// Whether reading `i` is a battery whose status could be read, and no
/// earlier reading is one.
pub open spec fn first_readable_battery(readings: Seq<SupplyReading>, i: int) -> bool {
    &&& 0 <= i < readings.len()
    &&& readings[i].kind matches Some(k) && trimmed(k@) == "Battery"@
    &&& readings[i].status is Some
    &&& forall|j: int|
        0 <= j < i ==> !(#[trigger] readings[j].kind matches Some(k) && trimmed(k@) == "Battery"@
            && readings[j].status is Some)
}

/// The machine counts as on a discharging battery exactly when the first
/// battery with a readable status reports, once trimmed, exactly
/// `Discharging`; any other status of that battery (`Full`, `Charging`,
/// `Not charging`, ...) and the absence of such a battery give false.
pub proof fn lemma_discharging_is_first_battery_status(readings: Seq<SupplyReading>)
    ensures
        discharging_in(readings) <==> exists|i: int|
            first_readable_battery(readings, i) && trimmed(readings[i].status.unwrap()@)
                == "Discharging"@,
    decreases readings.len(),
{
    if readings.len() == 0 {
        return;
    }
    let rest = readings.drop_first();
    if settles_battery(readings[0]) {
        assert(first_readable_battery(readings, 0));
        assert forall|i: int| first_readable_battery(readings, i) implies i == 0 by {
            if i > 0 {
                assert(!(readings[0].kind matches Some(k) && trimmed(k@) == "Battery"@
                    && readings[0].status is Some));
            }
        }
    } else {
        lemma_discharging_is_first_battery_status(rest);
        assert forall|i: int| #[trigger] first_readable_battery(readings, i) implies i > 0
            && first_readable_battery(rest, i - 1) by {
            assert forall|j: int| 0 <= j < i - 1 implies !(#[trigger] rest[j].kind matches Some(
                k,
            ) && trimmed(k@) == "Battery"@ && rest[j].status is Some) by {
                assert(rest[j] == readings[j + 1]);
                assert(!(readings[j + 1].kind matches Some(k) && trimmed(k@) == "Battery"@
                    && readings[j + 1].status is Some));
            }
        }
        assert forall|i: int| #[trigger] first_readable_battery(rest, i) implies first_readable_battery(
            readings,
            i + 1,
        ) by {
            assert forall|j: int| 0 <= j < i + 1 implies !(#[trigger] readings[j].kind matches Some(
                k,
            ) && trimmed(k@) == "Battery"@ && readings[j].status is Some) by {
                if j > 0 {
                    assert(readings[j] == rest[j - 1]);
                    assert(!(rest[j - 1].kind matches Some(k) && trimmed(k@) == "Battery"@
                        && rest[j - 1].status is Some));
                }
            }
        }
        if discharging_in(readings) {
            let i = choose|i: int|
                first_readable_battery(rest, i) && trimmed(rest[i].status.unwrap()@)
                    == "Discharging"@;
            assert(first_readable_battery(readings, i + 1));
            assert(readings[i + 1] == rest[i]);
        }
        if exists|i: int|
            first_readable_battery(readings, i) && trimmed(readings[i].status.unwrap()@)
                == "Discharging"@ {
            let i = choose|i: int|
                first_readable_battery(readings, i) && trimmed(readings[i].status.unwrap()@)
                    == "Discharging"@;
            assert(first_readable_battery(rest, i - 1));
            assert(readings[i] == rest[i - 1]);
        }
    }
}

/// Whether input device `i` is a lid switch whose state could be read, and
/// no earlier device is one.
pub open spec fn first_readable_lid(inputs: Seq<InputDeviceReading>, i: int) -> bool {
    &&& 0 <= i < inputs.len()
    &&& inputs[i].name matches Some(n) && occurs_in(trimmed(n@), "Lid"@)
    &&& inputs[i].state is Some
    &&& forall|j: int|
        0 <= j < i ==> !(#[trigger] inputs[j].name matches Some(n) && occurs_in(trimmed(n@), "Lid"@)
            && inputs[j].state is Some)
}

/// Without an ACPI lid state, the lid counts as closed exactly when the
/// first lid switch with a readable state reports, once trimmed, exactly
/// `closed`.
pub proof fn lemma_lid_closed_is_first_lid_state(inputs: Seq<InputDeviceReading>)
    ensures
        lid_closed_in(inputs) <==> exists|i: int|
            first_readable_lid(inputs, i) && trimmed(inputs[i].state.unwrap()@) == "closed"@,
    decreases inputs.len(),
{
    if inputs.len() == 0 {
        return;
    }
    let rest = inputs.drop_first();
    if settles_lid(inputs[0]) {
        assert(first_readable_lid(inputs, 0));
        assert forall|i: int| first_readable_lid(inputs, i) implies i == 0 by {
            if i > 0 {
                assert(!(inputs[0].name matches Some(n) && occurs_in(trimmed(n@), "Lid"@)
                    && inputs[0].state is Some));
            }
        }
    } else {
        lemma_lid_closed_is_first_lid_state(rest);
        assert forall|i: int| #[trigger] first_readable_lid(inputs, i) implies i > 0
            && first_readable_lid(rest, i - 1) by {
            assert forall|j: int| 0 <= j < i - 1 implies !(#[trigger] rest[j].name matches Some(
                n,
            ) && occurs_in(trimmed(n@), "Lid"@) && rest[j].state is Some) by {
                assert(rest[j] == inputs[j + 1]);
                assert(!(inputs[j + 1].name matches Some(n) && occurs_in(trimmed(n@), "Lid"@)
                    && inputs[j + 1].state is Some));
            }
        }
        assert forall|i: int| #[trigger] first_readable_lid(rest, i) implies first_readable_lid(
            inputs,
            i + 1,
        ) by {
            assert forall|j: int| 0 <= j < i + 1 implies !(#[trigger] inputs[j].name matches Some(
                n,
            ) && occurs_in(trimmed(n@), "Lid"@) && inputs[j].state is Some) by {
                if j > 0 {
                    assert(inputs[j] == rest[j - 1]);
                    assert(!(rest[j - 1].name matches Some(n) && occurs_in(trimmed(n@), "Lid"@)
                        && rest[j - 1].state is Some));
                }
            }
        }
        if lid_closed_in(inputs) {
            let i = choose|i: int|
                first_readable_lid(rest, i) && trimmed(rest[i].state.unwrap()@) == "closed"@;
            assert(first_readable_lid(inputs, i + 1));
            assert(inputs[i + 1] == rest[i]);
        }
        if exists|i: int|
            first_readable_lid(inputs, i) && trimmed(inputs[i].state.unwrap()@) == "closed"@ {
            let i = choose|i: int|
                first_readable_lid(inputs, i) && trimmed(inputs[i].state.unwrap()@) == "closed"@;
            assert(first_readable_lid(rest, i - 1));
            assert(inputs[i] == rest[i - 1]);
        }
    }
}

} // verus!

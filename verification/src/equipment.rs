//! Element and booster kinds, with their names as the data files spell them.
use crate::text::str_equals;
use vstd::prelude::*;

verus! {

/// Defines valid element types
#[derive(Debug, Clone, Copy, PartialEq, Eq, Structural)]
pub enum ElementType {
    Fire,
    Water,
    Air,
    Earth,
    Light,
    Dark,
    Any,
}

/// The name under which an element is written in the data files.
pub open spec fn element_name(e: ElementType) -> Seq<char> {
    match e {
        ElementType::Fire => "Fire"@,
        ElementType::Water => "Water"@,
        ElementType::Air => "Air"@,
        ElementType::Earth => "Earth"@,
        ElementType::Light => "Light"@,
        ElementType::Dark => "Dark"@,
        ElementType::Any => "Any"@,
    }
}

/// The element written under `name`, if any.
pub open spec fn element_from_name(name: Seq<char>) -> Option<ElementType> {
    if name == "Fire"@ {
        Some(ElementType::Fire)
    } else if name == "Water"@ {
        Some(ElementType::Water)
    } else if name == "Air"@ {
        Some(ElementType::Air)
    } else if name == "Earth"@ {
        Some(ElementType::Earth)
    } else if name == "Light"@ {
        Some(ElementType::Light)
    } else if name == "Dark"@ {
        Some(ElementType::Dark)
    } else if name == "Any"@ {
        Some(ElementType::Any)
    } else {
        None
    }
}

impl ElementType {
    /// The element's name, as the data files write it.
    pub fn name(&self) -> (res: String)
        ensures
            res@ == element_name(*self),
    {
        match self {
            ElementType::Fire => String::from_str("Fire"),
            ElementType::Water => String::from_str("Water"),
            ElementType::Air => String::from_str("Air"),
            ElementType::Earth => String::from_str("Earth"),
            ElementType::Light => String::from_str("Light"),
            ElementType::Dark => String::from_str("Dark"),
            ElementType::Any => String::from_str("Any"),
        }
    }

    /// Reads an element from its name; names are matched exactly.
    pub fn from_name(name: &str) -> (res: Option<ElementType>)
        ensures
            res == element_from_name(name@),
    {
        if str_equals(name, "Fire") {
            Some(ElementType::Fire)
        } else if str_equals(name, "Water") {
            Some(ElementType::Water)
        } else if str_equals(name, "Air") {
            Some(ElementType::Air)
        } else if str_equals(name, "Earth") {
            Some(ElementType::Earth)
        } else if str_equals(name, "Light") {
            Some(ElementType::Light)
        } else if str_equals(name, "Dark") {
            Some(ElementType::Dark)
        } else if str_equals(name, "Any") {
            Some(ElementType::Any)
        } else {
            None
        }
    }
}

/// Reading back the name of an element gives the element.
pub proof fn lemma_element_name_round_trip(e: ElementType)
    ensures
        element_from_name(element_name(e)) == Some(e),
{
    reveal_strlit("Fire");
    reveal_strlit("Water");
    reveal_strlit("Air");
    reveal_strlit("Earth");
    reveal_strlit("Light");
    reveal_strlit("Dark");
    reveal_strlit("Any");
    let n = element_name(e);
    match e {
        ElementType::Fire => {},
        ElementType::Any => {
            assert(n[1] != "Air"@[1]);
            assert(n[0] != "Fire"@[0] && n[0] != "Water"@[0]);
        },
        _ => {
            assert(n[0] != "Fire"@[0] || e == ElementType::Fire);
            assert(n[0] != "Water"@[0] || e == ElementType::Water);
            assert(n[0] != "Air"@[0] || e == ElementType::Air);
            assert(n[0] != "Earth"@[0] || e == ElementType::Earth);
            assert(n[0] != "Light"@[0] || e == ElementType::Light);
            assert(n[0] != "Dark"@[0] || e == ElementType::Dark);
        },
    }
}

/// Defines valid booster types
#[derive(Debug, Clone, Copy, PartialEq, Eq, Structural)]
pub enum BoosterType {
    PowerBooster,
    SuperPowerBooster,
    MegaPowerBooster,
}

/// The team booster that a study docket names: `None` when the name is not
/// one of the four accepted ones, `Some(None)` for no booster.
pub open spec fn booster_from_name(name: Seq<char>) -> Option<Option<BoosterType>> {
    if name == "None"@ {
        Some(None)
    } else if name == "Power Booster"@ {
        Some(Some(BoosterType::PowerBooster))
    } else if name == "Super Power Booster"@ {
        Some(Some(BoosterType::SuperPowerBooster))
    } else if name == "Mega Power Booster"@ {
        Some(Some(BoosterType::MegaPowerBooster))
    } else {
        None
    }
}

/// Reads the team booster setting of a study docket.
pub fn parse_booster(name: &str) -> (res: Option<Option<BoosterType>>)
    ensures
        res == booster_from_name(name@),
{
    if str_equals(name, "None") {
        Some(None)
    } else if str_equals(name, "Power Booster") {
        Some(Some(BoosterType::PowerBooster))
    } else if str_equals(name, "Super Power Booster") {
        Some(Some(BoosterType::SuperPowerBooster))
    } else if str_equals(name, "Mega Power Booster") {
        Some(Some(BoosterType::MegaPowerBooster))
    } else {
        None
    }
}

} // verus!

//! The values that a selection control reports as text.

use vstd::prelude::*;
use crate::text::same_text;

verus! {

/// Whether a selection control lets one option be chosen or several.
#[derive(Clone, Copy, PartialEq, Eq, Debug, Structural)]
pub enum SelectType {
    SelectOne,
    SelectMultiple,
}

/// Whether a control takes part in automatic completion.
#[derive(Clone, Copy, PartialEq, Eq, Debug, Structural)]
pub enum AutoComplete {
    On,
    Off,
}

impl SelectType {
    /// The type that the type name `name` stands for.
    pub open spec fn of_name(name: Seq<char>) -> Option<SelectType> {
        if name == "select-one"@ {
            Some(SelectType::SelectOne)
        } else if name == "select-multiple"@ {
            Some(SelectType::SelectMultiple)
        } else {
            None
        }
    }

    /// Reads a type name as the host reports it: `select-one` or
    /// `select-multiple`. Any other text is no type name.
    pub fn from_name(name: &str) -> (parsed: Option<SelectType>)
        ensures
            parsed == SelectType::of_name(name@),
    {
        if same_text(name, "select-one") {
            Some(SelectType::SelectOne)
        } else if same_text(name, "select-multiple") {
            Some(SelectType::SelectMultiple)
        } else {
            None
        }
    }

    /// The type name that the host reports for this type.
    pub fn name(self) -> (name: &'static str)
        ensures
            SelectType::of_name(name@) == Some(self),
    {
        proof {
            reveal_strlit("select-one");
            reveal_strlit("select-multiple");
            assert("select-one"@.len() != "select-multiple"@.len());
        }
        match self {
            SelectType::SelectOne => "select-one",
            SelectType::SelectMultiple => "select-multiple",
        }
    }
}

impl AutoComplete {
    /// The setting that the attribute value `value` stands for: off for the
    /// text `off`, on for every other text.
    pub open spec fn of_value(value: Seq<char>) -> AutoComplete {
        if value == "off"@ {
            AutoComplete::Off
        } else {
            AutoComplete::On
        }
    }

    /// Reads the attribute value as the host reports it.
    pub fn from_value(value: &str) -> (setting: AutoComplete)
        ensures
            setting == AutoComplete::of_value(value@),
    {
        if same_text(value, "off") {
            AutoComplete::Off
        } else {
            AutoComplete::On
        }
    }

    /// The attribute value that is written to the host for this setting.
    pub fn value(self) -> (value: &'static str)
        ensures
            value@ == (match self {
                AutoComplete::On => "on"@,
                AutoComplete::Off => "off"@,
            }),
            AutoComplete::of_value(value@) == self,
    {
        proof {
            reveal_strlit("on");
            reveal_strlit("off");
            assert("on"@.len() != "off"@.len());
        }
        match self {
            AutoComplete::On => "on",
            AutoComplete::Off => "off",
        }
    }
}

} // verus!

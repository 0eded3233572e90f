//! Parameter types shared by the endpoints.

use vstd::prelude::*;

use crate::params::ParamValue;

pub use crate::common::NameOrId;

verus! {

/// Orders results may be sorted in.
#[derive(Debug, Clone, Copy, PartialEq, Eq, Structural)]
pub enum SortOrder {
    /// Values are returned in ascending order.
    Ascending,
    /// Values are returned in descending order.
    Descending,
}

impl SortOrder {
    /// The name of the variant.
    pub open spec fn spec_as_str(self) -> Seq<char> {
        match self {
            SortOrder::Ascending => "asc"@,
            SortOrder::Descending => "desc"@,
        }
    }

    /// The name of the variant.
    pub fn as_str(self) -> (r: &'static str)
        ensures
            r@ == self.spec_as_str(),
    {
        match self {
            SortOrder::Ascending => "asc",
            SortOrder::Descending => "desc",
        }
    }
}

impl ParamValue for SortOrder {
    open spec fn spec_value(&self) -> Seq<char> {
        self.spec_as_str()
    }

    fn as_value(&self) -> (r: String) {
        self.as_str().to_owned()
    }
}

impl Default for SortOrder {
    fn default() -> (r: Self)
        ensures
            r == SortOrder::Descending,
    {
        SortOrder::Descending
    }
}

/// States of features which may be switched on or off.
#[derive(Debug, Clone, Copy, PartialEq, Eq, Structural)]
pub enum EnableState {
    /// The feature is enabled.
    Enabled,
    /// The feature is disabled.
    Disabled,
}

impl EnableState {
    /// The name of the variant.
    pub open spec fn spec_as_str(self) -> Seq<char> {
        match self {
            EnableState::Enabled => "enabled"@,
            EnableState::Disabled => "disabled"@,
        }
    }

    /// The name of the variant.
    pub fn as_str(self) -> (r: &'static str)
        ensures
            r@ == self.spec_as_str(),
    {
        match self {
            EnableState::Enabled => "enabled",
            EnableState::Disabled => "disabled",
        }
    }
}

impl ParamValue for EnableState {
    open spec fn spec_value(&self) -> Seq<char> {
        self.spec_as_str()
    }

    fn as_value(&self) -> (r: String) {
        self.as_str().to_owned()
    }
}

} // verus!

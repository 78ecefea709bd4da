//! Restriction of the destination port in a rule.

use vstd::prelude::*;

use crate::error::EgressError;

verus! {

/// Restriction of the destination port.
#[derive(Debug, Clone, Copy, PartialEq, Eq, Structural)]
pub enum PortSpec {
    /// Any valid port.
    Any,
    /// One port.
    Exactly {
        /// The port number.
        port: u16,
    },
    /// An inclusive range of ports.
    Range {
        /// First port of the range.
        start: u16,
        /// Last port of the range.
        end: u16,
    },
}

impl PortSpec {
    /// The restriction is one that the constructors can produce: ports are not
    /// zero and a range is not inverted.
    pub open spec fn valid(self) -> bool {
        match self {
            PortSpec::Any => true,
            PortSpec::Exactly { port } => port != 0,
            PortSpec::Range { start, end } => start != 0 && start <= end,
        }
    }

    /// Whether `port` falls under the restriction.
    pub open spec fn spec_matches(self, port: u16) -> bool {
        match self {
            PortSpec::Any => port > 0,
            PortSpec::Exactly { port: expected } => port == expected,
            PortSpec::Range { start, end } => start <= port <= end,
        }
    }

    /// Kind of the restriction for storage and the contract.
    pub open spec fn spec_kind(self) -> Seq<char> {
        match self {
            PortSpec::Any => "any"@,
            PortSpec::Exactly { .. } => "exactly"@,
            PortSpec::Range { .. } => "range"@,
        }
    }

    /// The restriction "any port".
    pub fn any() -> (spec: Self)
        ensures
            spec == PortSpec::Any,
    {
        PortSpec::Any
    }

    /// The restriction to one port.
    ///
    /// # Errors
    ///
    /// Returns a validation error of the field `port` when the port is zero.
    pub fn exactly(port: u16) -> (result: Result<Self, EgressError>)
        ensures
            port == 0 ==> result == Err::<PortSpec, EgressError>(
                EgressError::Validation { field: "port", reason: "must be between 1 and 65535" },
            ),
            port != 0 ==> result == Ok::<PortSpec, EgressError>(PortSpec::Exactly { port }),
    {
        if port == 0 {
            return Err(EgressError::validation("port", "must be between 1 and 65535"));
        }
        Ok(PortSpec::Exactly { port })
    }

    /// The restriction to an inclusive range of ports.
    ///
    /// # Errors
    ///
    /// Returns a validation error of the field `port_start` when the start is
    /// zero, and of `port_end` when the start is above the end.
    pub fn range(start: u16, end: u16) -> (result: Result<Self, EgressError>)
        ensures
            start == 0 ==> result == Err::<PortSpec, EgressError>(
                EgressError::Validation { field: "port_start", reason: "must be between 1 and 65535" },
            ),
            start != 0 && start > end ==> result == Err::<PortSpec, EgressError>(
                EgressError::Validation { field: "port_end", reason: "must not be less than the range start" },
            ),
            start != 0 && start <= end ==> result == Ok::<PortSpec, EgressError>(PortSpec::Range { start, end }),
    {
        if start == 0 {
            return Err(EgressError::validation("port_start", "must be between 1 and 65535"));
        }
        if start > end {
            return Err(EgressError::validation("port_end", "must not be less than the range start"));
        }
        Ok(PortSpec::Range { start, end })
    }

    /// Whether `port` falls under the restriction.
    pub fn matches(self, port: u16) -> (matched: bool)
        ensures
            matched == self.spec_matches(port),
    {
        match self {
            PortSpec::Any => port > 0,
            PortSpec::Exactly { port: expected } => port == expected,
            PortSpec::Range { start, end } => port >= start && port <= end,
        }
    }

    /// Kind of the restriction for storage and the contract.
    pub fn kind(self) -> (kind: &'static str)
        ensures
            kind@ == self.spec_kind(),
    {
        match self {
            PortSpec::Any => "any",
            PortSpec::Exactly { .. } => "exactly",
            PortSpec::Range { .. } => "range",
        }
    }

    /// Bounds of the restriction: `(start, end)` for a range, `(port, port)`
    /// for one port and `(None, None)` for any port.
    pub fn bounds(self) -> (bounds: (Option<u16>, Option<u16>))
        ensures
            bounds == match self {
                PortSpec::Any => (None::<u16>, None::<u16>),
                PortSpec::Exactly { port } => (Some(port), Some(port)),
                PortSpec::Range { start, end } => (Some(start), Some(end)),
            },
    {
        match self {
            PortSpec::Any => (None, None),
            PortSpec::Exactly { port } => (Some(port), Some(port)),
            PortSpec::Range { start, end } => (Some(start), Some(end)),
        }
    }
}

/// A valid restriction never admits port zero, and every restriction that the
/// constructors build is valid.
pub proof fn lemma_valid_spec_rejects_port_zero(spec: PortSpec)
    requires
        spec.valid(),
    ensures
        !spec.spec_matches(0),
{
}

} // verus!

use vstd::prelude::*;

use crate::error::Error;

verus! {

/// The six structural regions of a trace event in which a named field
/// may reside. A lookup names one of them to disambiguate fields that
/// exist in several layers.
#[derive(Debug, Clone, Copy, PartialEq, Eq, Structural)]
pub enum Scope {
    TracePacketHeader,
    StreamPacketContext,
    StreamEventHeader,
    StreamEventContext,
    EventContext,
    EventFields,
}

impl Scope {
    /// The native layer's code for this region, in the order its C
    /// enumeration declares them.
    pub closed spec fn spec_code(self) -> u32 {
        match self {
            Scope::TracePacketHeader => 0u32,
            Scope::StreamPacketContext => 1u32,
            Scope::StreamEventHeader => 2u32,
            Scope::StreamEventContext => 3u32,
            Scope::EventContext => 4u32,
            Scope::EventFields => 5u32,
        }
    }

    /// Translates the region to the native scope code.
    pub fn code(&self) -> (r: u32)
        ensures
            r == self.spec_code(),
    {
        match self {
            Scope::TracePacketHeader => 0u32,
            Scope::StreamPacketContext => 1u32,
            Scope::StreamEventHeader => 2u32,
            Scope::StreamEventContext => 3u32,
            Scope::EventContext => 4u32,
            Scope::EventFields => 5u32,
        }
    }
}

/// What a typed read decides from the outcome of one native extraction:
/// a set error flag overrides the raw value read.
pub open spec fn spec_u64_read(value: u64, error_flag: i32) -> Result<u64, Error> {
    if error_flag < 0 {
        Err(Error::InvalidValueForField)
    } else {
        Ok(value)
    }
}

/// The signed counterpart of `spec_u64_read`.
pub open spec fn spec_i64_read(value: i64, error_flag: i32) -> Result<i64, Error> {
    if error_flag < 0 {
        Err(Error::InvalidValueForField)
    } else {
        Ok(value)
    }
}

/// A typed read's result is decided by the extraction outcome alone, so
/// two reads of a still-valid field that report the same raw value and
/// error flag return identical values. Each typed getter pins its
/// result in this shape; that the native layer reports the same
/// outcome twice for an unchanged field is its own contract.
pub proof fn lemma_typed_read_deterministic(v1: u64, f1: i32, v2: u64, f2: i32)
    requires
        v1 == v2,
        f1 == f2,
    ensures
        spec_u64_read(v1, f1) == spec_u64_read(v2, f2),
{
}

/// A scope-bound view of one field of the current event. The value
/// behind it stays native-side; each typed getter interprets the
/// outcome of one native extraction: the raw value read and the
/// session-wide error flag sampled immediately after the read.
pub struct Definition {
    scope: Scope,
}

impl Definition {
    /// The structural region this view was resolved from.
    pub closed spec fn spec_scope(self) -> Scope {
        self.scope
    }

    /// The structural region this view was resolved from.
    pub fn scope(&self) -> (r: Scope)
        ensures
            r == self.spec_scope(),
    {
        self.scope
    }

    /// Decides an unsigned read from the raw value extracted and the
    /// error flag sampled immediately after the extraction.
    pub fn get_u64(&self, value: u64, error_flag: i32) -> (r: Result<u64, Error>)
        ensures
            r == spec_u64_read(value, error_flag),
    {
        if error_flag < 0 {
            Err(Error::InvalidValueForField)
        } else {
            Ok(value)
        }
    }

    /// Decides a signed read from the raw value extracted and the error
    /// flag sampled immediately after the extraction.
    pub fn get_i64(&self, value: i64, error_flag: i32) -> (r: Result<i64, Error>)
        ensures
            r == spec_i64_read(value, error_flag),
    {
        if error_flag < 0 {
            Err(Error::InvalidValueForField)
        } else {
            Ok(value)
        }
    }

    /// Decides a string read from the text extracted and the error flag
    /// sampled immediately after the extraction. That the extracted
    /// text is validly encoded is the native layer's documented
    /// guarantee, not checked here.
    pub fn get_str(&self, value: String, error_flag: i32) -> (r: Result<String, Error>)
        ensures
            error_flag < 0 ==> (r matches Err(e) && e is InvalidValueForField),
            error_flag >= 0 ==> (r matches Ok(v) && v@ == value@),
    {
        if error_flag < 0 {
            Err(Error::InvalidValueForField)
        } else {
            Ok(value)
        }
    }
}

/// What the native layer reports of one event at the current iteration
/// step: its identifier string and its raw clock value. A value of this
/// type stands for one cursor position and must not be kept past the
/// next advance.
pub struct Event {
    name: String,
    timestamp_raw: u64,
}

impl Event {
    /// The event's identifier string.
    pub closed spec fn spec_name(self) -> Seq<char> {
        self.name@
    }

    /// The raw clock value the native layer reported for this event.
    pub closed spec fn spec_timestamp_raw(self) -> u64 {
        self.timestamp_raw
    }

    /// Gathers what the native layer reports at the current cursor
    /// position into an event view.
    pub fn new(name: String, timestamp_raw: u64) -> (e: Event)
        ensures
            e.spec_name() == name@,
            e.spec_timestamp_raw() == timestamp_raw,
    {
        Event { name, timestamp_raw }
    }

    /// The event's identifier string, valid for the current iteration
    /// step only.
    pub fn name(&self) -> (r: &str)
        ensures
            r@ == self.spec_name(),
    {
        self.name.as_str()
    }

    /// The event's clock value. The native layer reserves the maximum
    /// unsigned value as its "no timestamp" sentinel; exactly that
    /// value fails, every other one is returned as it stands.
    pub fn timestamp(&self) -> (r: Result<u64, Error>)
        ensures
            self.spec_timestamp_raw() == u64::MAX ==> (r matches Err(e) && e is InvalidTimestamp),
            self.spec_timestamp_raw() != u64::MAX ==> (r matches Ok(v) && v
                == self.spec_timestamp_raw()),
    {
        if self.timestamp_raw == u64::MAX {
            Err(Error::InvalidTimestamp)
        } else {
            Ok(self.timestamp_raw)
        }
    }

    /// Resolves one structural region of this event. `resolved` says
    /// whether the native lookup yielded the region; a region absent
    /// from this event's layout fails.
    pub fn get_top_level_scope(&self, scope: Scope, resolved: bool) -> (r: Result<Definition, Error>)
        ensures
            resolved ==> (r matches Ok(d) && d.spec_scope() == scope),
            !resolved ==> (r matches Err(e) && e is GetEventScope),
    {
        if resolved {
            Ok(Definition { scope })
        } else {
            Err(Error::GetEventScope)
        }
    }

    /// Looks a named field up within a resolved region. `found` says
    /// whether the native lookup yielded the field; an absent field is
    /// no error, the lookup simply yields nothing.
    pub fn get_field(&self, scope: &Definition, field_name: &str, found: bool) -> (r: Option<
        Definition,
    >)
        ensures
            found ==> (r matches Some(d) && d.spec_scope() == scope.spec_scope()),
            !found ==> r is None,
    {
        let _ = field_name;
        if found {
            Some(Definition { scope: scope.scope() })
        } else {
            None
        }
    }

    /// Reads a named field as an unsigned integer. With no region at
    /// hand the event-fields region is resolved first
    /// (`default_scope_resolved` reports that native lookup); an absent
    /// field names itself in the failure; otherwise the extraction
    /// outcome decides.
    pub fn get_u64(
        &self,
        scope: Option<&Definition>,
        field_name: &str,
        default_scope_resolved: bool,
        field_found: bool,
        value: u64,
        error_flag: i32,
    ) -> (r: Result<u64, Error>)
        ensures
            (scope is None && !default_scope_resolved) ==> (r matches Err(e) && e
                is GetEventScope),
            (scope is Some || default_scope_resolved) && !field_found ==> (r matches Err(e) && e
                matches Error::UnknownField(n) && n@ == field_name@),
            (scope is Some || default_scope_resolved) && field_found ==> r == spec_u64_read(
                value,
                error_flag,
            ),
    {
        let resolved: Definition = match scope {
            Some(s) => Definition { scope: s.scope() },
            None => {
                match self.get_top_level_scope(Scope::EventFields, default_scope_resolved) {
                    Ok(d) => d,
                    Err(e) => {
                        return Err(e);
                    },
                }
            },
        };
        match self.get_field(&resolved, field_name, field_found) {
            Some(d) => d.get_u64(value, error_flag),
            None => Err(Error::UnknownField(field_name.to_owned())),
        }
    }

    /// Reads a named field as a signed integer; the decision follows
    /// `get_u64`.
    pub fn get_i64(
        &self,
        scope: Option<&Definition>,
        field_name: &str,
        default_scope_resolved: bool,
        field_found: bool,
        value: i64,
        error_flag: i32,
    ) -> (r: Result<i64, Error>)
        ensures
            (scope is None && !default_scope_resolved) ==> (r matches Err(e) && e
                is GetEventScope),
            (scope is Some || default_scope_resolved) && !field_found ==> (r matches Err(e) && e
                matches Error::UnknownField(n) && n@ == field_name@),
            (scope is Some || default_scope_resolved) && field_found ==> r == spec_i64_read(
                value,
                error_flag,
            ),
    {
        let resolved: Definition = match scope {
            Some(s) => Definition { scope: s.scope() },
            None => {
                match self.get_top_level_scope(Scope::EventFields, default_scope_resolved) {
                    Ok(d) => d,
                    Err(e) => {
                        return Err(e);
                    },
                }
            },
        };
        match self.get_field(&resolved, field_name, field_found) {
            Some(d) => d.get_i64(value, error_flag),
            None => Err(Error::UnknownField(field_name.to_owned())),
        }
    }

    /// Reads a named field as text; the decision follows `get_u64`.
    pub fn get_string(
        &self,
        scope: Option<&Definition>,
        field_name: &str,
        default_scope_resolved: bool,
        field_found: bool,
        value: String,
        error_flag: i32,
    ) -> (r: Result<String, Error>)
        ensures
            (scope is None && !default_scope_resolved) ==> (r matches Err(e) && e
                is GetEventScope),
            (scope is Some || default_scope_resolved) && !field_found ==> (r matches Err(e) && e
                matches Error::UnknownField(n) && n@ == field_name@),
            (scope is Some || default_scope_resolved) && field_found && error_flag < 0 ==> (r
                matches Err(e) && e is InvalidValueForField),
            (scope is Some || default_scope_resolved) && field_found && error_flag >= 0 ==> (r
                matches Ok(v) && v@ == value@),
    {
        let resolved: Definition = match scope {
            Some(s) => Definition { scope: s.scope() },
            None => {
                match self.get_top_level_scope(Scope::EventFields, default_scope_resolved) {
                    Ok(d) => d,
                    Err(e) => {
                        return Err(e);
                    },
                }
            },
        };
        match self.get_field(&resolved, field_name, field_found) {
            Some(d) => d.get_str(value, error_flag),
            None => Err(Error::UnknownField(field_name.to_owned())),
        }
    }
}

} // verus!

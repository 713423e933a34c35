//! The description of a problem that a failed request is answered with.

use vstd::prelude::*;
use vstd::std_specs::convert::FromSpecImpl;

verus! {

/// An offset from UTC, in whole seconds; east is positive.
#[derive(Debug, Clone, Copy, PartialEq, Eq, Structural)]
pub struct Offset {
    pub seconds: i32,
}

/// A moment, in nanoseconds since the start of 1970, and the offset from UTC
/// at which it is shown.
#[derive(Debug, Clone, Copy, PartialEq, Eq, Structural)]
pub struct Timestamp {
    pub unix_nanos: i128,
    pub offset: Offset,
}

/// The offset, in whole seconds, that the `time` crate makes of hours, minutes
/// and seconds, or nothing where it refuses them.
pub uninterp spec fn utc_offset_seconds(hours: i8, minutes: i8, seconds: i8) -> Option<i32>;

/// `time::UtcOffset::from_hms`, its error dropped and the offset taken in whole
/// seconds. Not verified: the offset is taken to depend on the three numbers
/// alone.
#[verifier::external_body]
fn offset_from_hms(hours: i8, minutes: i8, seconds: i8) -> (r: Option<i32>)
    ensures
        r == utc_offset_seconds(hours, minutes, seconds),
{
    match time::UtcOffset::from_hms(hours, minutes, seconds) {
        Ok(offset) => Some(offset.whole_seconds()),
        Err(_) => None,
    }
}

/// `time::OffsetDateTime::now_utc`, in nanoseconds since the start of 1970.
/// Nothing is claimed of the clock.
#[verifier::external_body]
fn utc_now_nanos() -> i128 {
    time::OffsetDateTime::now_utc().unix_timestamp_nanos()
}

/// The description of a problem: what kind it is, what it is called, the
/// status of the answer, what happened, where, and when.
#[derive(Debug)]
pub struct ResponseError {
    pub kind: Option<String>,
    pub title: Option<String>,
    pub status: Option<u16>,
    pub detail: Option<String>,
    pub instance: Option<String>,
    pub timestamp: Option<Timestamp>,
}

/// What is known of a problem before it is described.
#[derive(Debug)]
pub struct Builder {
    pub kind: Option<String>,
    pub title: Option<String>,
    pub status: Option<u16>,
    pub detail: Option<String>,
    pub instance: Option<String>,
    pub offset: Option<Offset>,
}

/// The offset at which a problem is stamped: the one asked for, or UTC.
pub open spec fn offset_or_utc(offset: Option<Offset>) -> Offset {
    match offset {
        Some(offset) => offset,
        None => Offset { seconds: 0 },
    }
}

impl ResponseError {
    /// The description that `builder` asks for, stamped with the moment
    /// `unix_nanos`: the status is 400 unless the builder names one, and the
    /// offset is UTC unless the builder names one.
    pub open spec fn described(builder: Builder, unix_nanos: i128) -> ResponseError {
        ResponseError {
            kind: builder.kind,
            title: builder.title,
            status: match builder.status {
                Some(status) => Some(status),
                None => Some(400u16),
            },
            detail: builder.detail,
            instance: builder.instance,
            timestamp: Some(Timestamp { unix_nanos, offset: offset_or_utc(builder.offset) }),
        }
    }

    /// A description with every field given, stamped with the present moment.
    pub fn new(
        kind: String,
        title: String,
        status: u16,
        detail: String,
        instance: String,
        offset: Option<Offset>,
    ) -> (r: ResponseError)
        ensures
            r.kind == Some(kind),
            r.title == Some(title),
            r.status == Some(status),
            r.detail == Some(detail),
            r.instance == Some(instance),
            r.timestamp matches Some(stamp) && stamp.offset == offset_or_utc(offset),
    {
        Self::create_at(
            Builder {
                kind: Some(kind),
                title: Some(title),
                status: Some(status),
                detail: Some(detail),
                instance: Some(instance),
                offset,
            },
            utc_now_nanos(),
        )
    }

    /// A builder that knows nothing yet.
    pub fn builder() -> (b: Builder)
        ensures
            b == Builder::empty(),
    {
        Builder { kind: None, title: None, status: None, detail: None, instance: None, offset: None }
    }

    /// The description that `builder` asks for, stamped with the moment
    /// `unix_nanos`.
    pub fn create_at(builder: Builder, unix_nanos: i128) -> (r: ResponseError)
        ensures
            r == Self::described(builder, unix_nanos),
    {
        let status = match builder.status {
            Some(status) => Some(status),
            None => Some(400),
        };
        let offset = match builder.offset {
            Some(offset) => offset,
            None => Offset { seconds: 0 },
        };
        ResponseError {
            kind: builder.kind,
            title: builder.title,
            status,
            detail: builder.detail,
            instance: builder.instance,
            timestamp: Some(Timestamp { unix_nanos, offset }),
        }
    }

    /// The description that `builder` asks for, stamped with the present
    /// moment.
    pub fn create(builder: Builder) -> (r: ResponseError)
        ensures
            exists|unix_nanos: i128| r == #[trigger] Self::described(builder, unix_nanos),
    {
        Self::create_at(builder, utc_now_nanos())
    }
}

impl From<Builder> for ResponseError {
    fn from(value: Builder) -> (r: ResponseError)
        ensures
            exists|unix_nanos: i128| r == #[trigger] ResponseError::described(value, unix_nanos),
    {
        ResponseError::create(value)
    }
}

impl FromSpecImpl<Builder> for ResponseError {
    /// The description is stamped with the clock, so it is no function of the
    /// builder.
    open spec fn obeys_from_spec() -> bool {
        false
    }

    open spec fn from_spec(value: Builder) -> ResponseError {
        arbitrary()
    }
}

impl Builder {
    /// The builder that knows nothing.
    pub open spec fn empty() -> Builder {
        Builder { kind: None, title: None, status: None, detail: None, instance: None, offset: None }
    }

    /// The builder that knows what a description says, and the offset of its
    /// moment.
    pub open spec fn taken_from(value: ResponseError) -> Builder {
        Builder {
            kind: value.kind,
            title: value.title,
            status: value.status,
            detail: value.detail,
            instance: value.instance,
            offset: match value.timestamp {
                Some(stamp) => Some(stamp.offset),
                None => None,
            },
        }
    }

    pub fn kind(self, kind: String) -> (b: Builder)
        ensures
            b == (Builder { kind: Some(kind), ..self }),
    {
        let mut b = self;
        b.kind = Some(kind);
        b
    }

    pub fn status(self, status: u16) -> (b: Builder)
        ensures
            b == (Builder { status: Some(status), ..self }),
    {
        let mut b = self;
        b.status = Some(status);
        b
    }

    pub fn title(self, title: String) -> (b: Builder)
        ensures
            b == (Builder { title: Some(title), ..self }),
    {
        let mut b = self;
        b.title = Some(title);
        b
    }

    pub fn detail(self, detail: String) -> (b: Builder)
        ensures
            b == (Builder { detail: Some(detail), ..self }),
    {
        let mut b = self;
        b.detail = Some(detail);
        b
    }

    pub fn instance(self, instance: String) -> (b: Builder)
        ensures
            b == (Builder { instance: Some(instance), ..self }),
    {
        let mut b = self;
        b.instance = Some(instance);
        b
    }

    pub fn offset(self, offset: Offset) -> (b: Builder)
        ensures
            b == (Builder { offset: Some(offset), ..self }),
    {
        let mut b = self;
        b.offset = Some(offset);
        b
    }

    /// Sets the offset to so many hours, minutes and seconds, and to none
    /// where these make no offset.
    pub fn offset_hms(self, hms: (i8, i8, i8)) -> (b: Builder)
        ensures
            b == (Builder {
                offset: match utc_offset_seconds(hms.0, hms.1, hms.2) {
                    Some(seconds) => Some(Offset { seconds }),
                    None => None,
                },
                ..self
            }),
    {
        let mut b = self;
        b.offset = match offset_from_hms(hms.0, hms.1, hms.2) {
            Some(seconds) => Some(Offset { seconds }),
            None => None,
        };
        b
    }

    /// The description that the builder asks for, stamped with the present
    /// moment.
    pub fn build(self) -> (r: ResponseError)
        ensures
            exists|unix_nanos: i128| r == #[trigger] ResponseError::described(self, unix_nanos),
    {
        ResponseError::create(self)
    }
}

impl From<ResponseError> for Builder {
    fn from(value: ResponseError) -> (b: Builder) {
        Builder {
            kind: value.kind,
            title: value.title,
            status: value.status,
            detail: value.detail,
            instance: value.instance,
            offset: match value.timestamp {
                Some(stamp) => Some(stamp.offset),
                None => None,
            },
        }
    }
}

impl FromSpecImpl<ResponseError> for Builder {
    open spec fn obeys_from_spec() -> bool {
        true
    }

    open spec fn from_spec(value: ResponseError) -> Builder {
        Builder::taken_from(value)
    }
}

/// A description made from what a builder took from a description has the
/// fields of the first, but for its moment; its status is that of the first,
/// or 400 where the first had none.
pub proof fn lemma_rebuilt_description(first: ResponseError, unix_nanos: i128)
    ensures
        ({
            let rebuilt = ResponseError::described(Builder::taken_from(first), unix_nanos);
            &&& rebuilt.kind == first.kind
            &&& rebuilt.title == first.title
            &&& rebuilt.detail == first.detail
            &&& rebuilt.instance == first.instance
            &&& rebuilt.status is Some
            &&& first.status is Some ==> rebuilt.status == first.status
            &&& first.timestamp matches Some(stamp) ==> rebuilt.timestamp == Some(
                Timestamp { unix_nanos, offset: stamp.offset },
            )
        }),
{
}

} // verus!

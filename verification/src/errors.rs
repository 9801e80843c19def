use vstd::prelude::*;

verus! {

/// A field that a display record requires although the wire schema leaves it
/// optional.
#[derive(Clone, Copy, Debug, PartialEq, Eq, Structural)]
pub enum DisplayField {
    /// The journey's line or run number.
    LineNumber,
    /// The departure time of the board's own stop.
    Departure,
}

/// The error taxonomy of the stationboard client.
#[derive(Clone, Copy, Debug, PartialEq, Eq, Structural)]
pub enum ApiError {
    /// Neither a station name nor a station id was supplied to the request
    /// builder, although at least one of the two is mandatory.
    InvalidRequest,
    /// The transport failed, timed out, or the server answered with a
    /// non-success HTTP status.
    Network,
    /// The response body is not valid JSON or does not match the shape the
    /// domain model requires.
    Schema,
    /// A field that display needs is absent, although the wire schema allows
    /// its absence.
    MissingField(DisplayField),
}

} // verus!

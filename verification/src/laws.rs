//! What holds of every error of this layer: a wrapped cause stays
//! retrievable, a failure that wraps nothing has no cause, and the summaries
//! are never empty and tell the kinds apart.

use crate::bytes_errors::{
    BytesReadError, BytesReadErrorValue, BytesWriteError, BytesWriteErrorValue, ReadFailureKind,
    WriteFailureKind,
};
use crate::causes::{deadline_text, Cause};
use crate::netio_errors::NetIOError;
use crate::rendering::{separator, summarizes, summary};
use tokio::time::Elapsed;
use vstd::prelude::*;
use vstd::std_specs::convert::FromSpec;

verus! {

/// A read error made from a transport fault is an I/O fault, and the cause
/// that it gives is that same fault.
pub proof fn read_error_keeps_transport_fault(e: std::io::Error)
    ensures
        BytesReadError::from_spec(e).value == BytesReadErrorValue::IO(e),
        BytesReadError::from_spec(e).kind() == ReadFailureKind::IOFault,
        BytesReadError::from_spec(e).cause() == Some(Cause::Transport(&e)),
{
}

/// A write error made from a transport fault is an I/O fault, and the cause
/// that it gives is that same fault.
pub proof fn write_error_keeps_transport_fault(e: std::io::Error)
    ensures
        BytesWriteError::from_spec(e).value == BytesWriteErrorValue::IO(e),
        BytesWriteError::from_spec(e).kind() == WriteFailureKind::IOFault,
        BytesWriteError::from_spec(e).cause() == Some(Cause::Transport(&e)),
{
}

/// A read error made from a deadline expiry is a timeout, and the cause that
/// it gives is that same expiry.
pub proof fn read_error_keeps_deadline_expiry(t: Elapsed)
    ensures
        BytesReadError::from_spec(t).value == BytesReadErrorValue::TimeoutError(t),
        BytesReadError::from_spec(t).kind() == ReadFailureKind::TimedOut,
        BytesReadError::from_spec(t).cause() == Some(Cause::Deadline(&t)),
{
}

/// A write error made from a failure of the network I/O layer is a network
/// I/O failure, never an I/O fault, and the cause that it gives is that same
/// failure.
pub proof fn write_error_keeps_network_failure(n: NetIOError)
    ensures
        BytesWriteError::from_spec(n).value == BytesWriteErrorValue::NetIOError(n),
        BytesWriteError::from_spec(n).kind() == WriteFailureKind::NetworkIOFailure,
        BytesWriteError::from_spec(n).kind() != WriteFailureKind::IOFault,
        BytesWriteError::from_spec(n).cause() == Some(Cause::Network(&n)),
{
}

/// A read error holds the failure that it was made from, unchanged.
pub proof fn read_error_holds_its_value(v: BytesReadErrorValue)
    ensures
        BytesReadError::from_spec(v).value == v,
        BytesReadError::from_spec(v).kind() == v.kind(),
        BytesReadError::from_spec(v).cause() == v.cause(),
{
}

/// A read failure has no cause exactly when its kind wraps nothing: when the
/// stream gave too few bytes, or none.
pub proof fn read_cause_absent_iff_leaf(v: BytesReadErrorValue)
    ensures
        v.cause() is None <==> (v.kind() == ReadFailureKind::NotEnoughBytes || v.kind()
            == ReadFailureKind::EmptyStream),
        v.cause() is Some <==> v.kind().is_wrapper(),
{
}

/// Every write failure wraps a cause.
pub proof fn write_cause_present(v: BytesWriteErrorValue)
    ensures
        v.cause() is Some,
{
}

/// The summary of a read failure that wraps nothing is the marker of its
/// kind and no more.
pub proof fn read_leaf_summary(v: BytesReadErrorValue, text: Seq<char>)
    requires
        !v.kind().is_wrapper(),
    ensures
        v.rendered_as(text) <==> text == v.kind().marker_spec(),
{
}

/// The summary of a timeout is fixed: the marker, the separator and the text
/// of a deadline expiry.
pub proof fn read_timeout_summary(v: BytesReadErrorValue, text: Seq<char>)
    requires
        v.kind() == ReadFailureKind::TimedOut,
    ensures
        v.rendered_as(text) <==> text == ReadFailureKind::TimedOut.marker_spec() + separator()
            + deadline_text(),
{
    let c = v.cause().unwrap();
    if v.rendered_as(text) {
        let d = choose|d: Seq<char>| #[trigger]
            c.described_by(d) && text == summary(v.kind().marker_spec(), Some(d));
        assert(d == deadline_text());
    }
    if text == ReadFailureKind::TimedOut.marker_spec() + separator() + deadline_text() {
        assert(c.described_by(deadline_text()));
    }
}

/// The summary of a network I/O failure is the marker, the separator and the
/// failure's own account.
pub proof fn write_network_summary(v: BytesWriteErrorValue, text: Seq<char>)
    requires
        v.kind() == WriteFailureKind::NetworkIOFailure,
    ensures
        v.rendered_as(text) <==> text == WriteFailureKind::NetworkIOFailure.marker_spec()
            + separator() + v->NetIOError_0.reason@,
{
    let c = v.cause().unwrap();
    let r = v->NetIOError_0.reason@;
    if v.rendered_as(text) {
        let d = choose|d: Seq<char>| #[trigger]
            c.described_by(d) && text == summary(v.kind().marker_spec(), Some(d));
        assert(d == r);
    }
    if text == WriteFailureKind::NetworkIOFailure.marker_spec() + separator() + r {
        assert(c.described_by(r));
    }
}

/// The markers of the read kinds are at least two characters long, and no two
/// of them agree on their first two characters.
pub proof fn read_markers_differ_early(a: ReadFailureKind, b: ReadFailureKind)
    ensures
        a.marker_spec().len() >= 2,
        a != b ==> a.marker_spec()[0] != b.marker_spec()[0] || a.marker_spec()[1]
            != b.marker_spec()[1],
{
    reveal_strlit("not enough bytes");
    reveal_strlit("empty stream");
    reveal_strlit("io error");
    reveal_strlit("elapsed");
}

/// The markers of the write kinds are not empty, and the two differ in their
/// first character.
pub proof fn write_markers_differ_early(a: WriteFailureKind, b: WriteFailureKind)
    ensures
        a.marker_spec().len() >= 1,
        a != b ==> a.marker_spec()[0] != b.marker_spec()[0],
{
    reveal_strlit("not enough bytes");
    reveal_strlit("io error");
}

/// No summary of a read failure is empty.
pub proof fn read_summary_nonempty(v: BytesReadErrorValue, text: Seq<char>)
    requires
        v.rendered_as(text),
    ensures
        text.len() > 0,
{
    read_markers_differ_early(v.kind(), v.kind());
}

/// No summary of a write failure is empty.
pub proof fn write_summary_nonempty(v: BytesWriteErrorValue, text: Seq<char>)
    requires
        v.rendered_as(text),
    ensures
        text.len() > 0,
{
    write_markers_differ_early(v.kind(), v.kind());
}

/// Read failures of two kinds never have the same summary, whatever their
/// causes say of themselves.
pub proof fn read_kinds_render_apart(
    x: BytesReadErrorValue,
    y: BytesReadErrorValue,
    a: Seq<char>,
    b: Seq<char>,
)
    requires
        x.kind() != y.kind(),
        x.rendered_as(a),
        y.rendered_as(b),
    ensures
        a != b,
{
    read_markers_differ_early(x.kind(), y.kind());
    read_markers_differ_early(y.kind(), x.kind());
    let mx = x.kind().marker_spec();
    let my = y.kind().marker_spec();
    assert(a[0] == mx[0] && a[1] == mx[1]);
    assert(b[0] == my[0] && b[1] == my[1]);
}

/// Write failures of the two kinds never have the same summary, whatever
/// their causes say of themselves.
pub proof fn write_kinds_render_apart(
    x: BytesWriteErrorValue,
    y: BytesWriteErrorValue,
    a: Seq<char>,
    b: Seq<char>,
)
    requires
        x.kind() != y.kind(),
        x.rendered_as(a),
        y.rendered_as(b),
    ensures
        a != b,
{
    write_markers_differ_early(x.kind(), y.kind());
    write_markers_differ_early(y.kind(), x.kind());
    let mx = x.kind().marker_spec();
    let my = y.kind().marker_spec();
    assert(a[0] == mx[0]);
    assert(b[0] == my[0]);
}

/// A read failure and a write failure never have the same summary, unless
/// both are I/O faults: those two share their marker, and render alike when
/// their transport faults describe themselves alike.
pub proof fn read_and_write_render_apart(
    x: BytesReadErrorValue,
    y: BytesWriteErrorValue,
    a: Seq<char>,
    b: Seq<char>,
)
    requires
        x.rendered_as(a),
        y.rendered_as(b),
        !(x.kind() == ReadFailureKind::IOFault && y.kind() == WriteFailureKind::IOFault),
    ensures
        a != b,
{
    reveal_strlit("not enough bytes");
    reveal_strlit("empty stream");
    reveal_strlit("io error");
    reveal_strlit("elapsed");
    reveal_strlit(": ");
    let mx = x.kind().marker_spec();
    let my = y.kind().marker_spec();
    assert(a[0] == mx[0]);
    assert(b[0] == my[0]);
    if x.kind() == ReadFailureKind::NotEnoughBytes && y.kind()
        == WriteFailureKind::NetworkIOFailure {
        assert(a.len() == mx.len());
        assert(b.len() >= my.len() + 2);
    }
}

/// A failure whose cause is not a transport fault has one summary: two texts
/// that both summarize it are the same text. The description of a transport
/// fault is std's, and nothing here says that std gives it twice alike.
pub proof fn summary_is_determined(
    marker: Seq<char>,
    cause: Option<Cause>,
    a: Seq<char>,
    b: Seq<char>,
)
    requires
        summarizes(marker, cause, a),
        summarizes(marker, cause, b),
        !(cause matches Some(Cause::Transport(_))),
    ensures
        a == b,
{
}

} // verus!

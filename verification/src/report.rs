//! Report lines for graph operations and devices.
//!
//! One operation yields its name line, then, on request, an indented shape
//! line and an indented type line, each only when the attribute is present.
//! An operation whose name could not be decoded as text yields a
//! [`DecodingError`] instead; a whole-graph report skips such an operation and
//! goes on with the rest.

use vstd::prelude::*;
use crate::format::TensorShape;
use crate::format::format_shape;
use crate::format::shape_str;

verus! {

/// Which optional attributes the report renders.
pub struct Opts {
    pub report_shape: bool,
    pub report_type: bool,
}

/// One graph operation, as plain values: its decoded name (`None` when the
/// stored bytes were not valid text), its shape attribute and its dtype's
/// display name, each absent when the graph carries none.
pub struct OpInfo {
    pub name: Option<String>,
    pub shape: Option<TensorShape>,
    pub dtype: Option<String>,
}

/// A compute device: its type and its name, passed through to the report.
pub struct Device {
    pub device_type: String,
    pub name: String,
}

/// An operation's name could not be decoded as text.
#[derive(Debug)]
pub struct DecodingError;

/// The indented shape line of an operation.
pub open spec fn shape_line(shape: TensorShape) -> Seq<char> {
    "   shape: "@ + shape_str(shape)
}

/// The indented type line of an operation.
pub open spec fn type_line(dtype: Seq<char>) -> Seq<char> {
    "   type: "@ + dtype
}

/// The shape line of an operation, rendered only when asked for and present.
pub open spec fn shape_lines(shape: Option<TensorShape>, opts: Opts) -> Seq<Seq<char>> {
    match shape {
        Option::Some(sh) => if opts.report_shape {
            seq![shape_line(sh)]
        } else {
            Seq::empty()
        },
        Option::None => Seq::empty(),
    }
}

/// The type line of an operation, rendered only when asked for and present.
pub open spec fn type_lines(dtype: Option<String>, opts: Opts) -> Seq<Seq<char>> {
    match dtype {
        Option::Some(d) => if opts.report_type {
            seq![type_line(d@)]
        } else {
            Seq::empty()
        },
        Option::None => Seq::empty(),
    }
}

/// The full report of one operation: the name line first, then the optional
/// shape and type lines in that order.
pub open spec fn op_lines(
    name: Seq<char>,
    shape: Option<TensorShape>,
    dtype: Option<String>,
    opts: Opts,
) -> Seq<Seq<char>> {
    seq![name] + shape_lines(shape, opts) + type_lines(dtype, opts)
}

/// Produces the report lines of one operation, or a [`DecodingError`] exactly
/// when its name is not decodable; no line is produced for such an operation.
pub fn report_op(op: &OpInfo, opts: &Opts) -> (r: Result<Vec<String>, DecodingError>)
    ensures
        r is Ok <==> op.name is Some,
        r is Ok ==> r->Ok_0.deep_view() == op_lines(op.name->0@, op.shape, op.dtype, *opts),
{
    let name: String = match &op.name {
        Option::Some(n) => n.clone(),
        Option::None => {
            return Result::Err(DecodingError);
        },
    };
    let mut lines: Vec<String> = Vec::new();
    lines.push(name);
    if opts.report_shape {
        match &op.shape {
            Option::Some(sh) => {
                let line = String::from_str("   shape: ").concat(format_shape(sh).as_str());
                lines.push(line);
            },
            Option::None => {},
        }
    }
    if opts.report_type {
        match &op.dtype {
            Option::Some(d) => {
                let line = String::from_str("   type: ").concat(d.as_str());
                lines.push(line);
            },
            Option::None => {},
        }
    }
    proof {
        assert(lines.deep_view() =~~= op_lines(op.name->0@, op.shape, op.dtype, *opts));
    }
    Result::Ok(lines)
}

/// The report lines of a whole graph, in the graph's own operation order:
/// each operation's lines in turn, with nothing for an operation whose name
/// is not decodable.
pub open spec fn graph_lines(ops: Seq<OpInfo>, opts: Opts) -> Seq<Seq<char>>
    decreases ops.len(),
{
    if ops.len() == 0 {
        Seq::empty()
    } else {
        graph_lines(ops.drop_last(), opts) + (match ops.last().name {
            Option::Some(name) => op_lines(name@, ops.last().shape, ops.last().dtype, opts),
            Option::None => Seq::empty(),
        })
    }
}

/// The positions, in order, of the operations whose names are not decodable.
pub open spec fn undecodable_indices(ops: Seq<OpInfo>) -> Seq<int>
    decreases ops.len(),
{
    if ops.len() == 0 {
        Seq::empty()
    } else {
        undecodable_indices(ops.drop_last()) + (match ops.last().name {
            Option::Some(_) => Seq::empty(),
            Option::None => seq![ops.len() - 1],
        })
    }
}

/// Reports every operation in the given order. An operation whose name is not
/// decodable contributes no lines; its position is returned instead, so the
/// failure is surfaced without stopping the enumeration.
pub fn graph_report(ops: &Vec<OpInfo>, opts: &Opts) -> (r: (Vec<String>, Vec<usize>))
    ensures
        r.0.deep_view() == graph_lines(ops@, *opts),
        r.1@.map_values(|j: usize| j as int) == undecodable_indices(ops@),
{
    let mut lines: Vec<String> = Vec::new();
    let mut failed: Vec<usize> = Vec::new();
    let mut i: usize = 0;
    while i < ops.len()
        invariant
            i <= ops@.len(),
            lines.deep_view() == graph_lines(ops@.take(i as int), *opts),
            failed@.map_values(|j: usize| j as int) == undecodable_indices(ops@.take(i as int)),
        decreases ops@.len() - i,
    {
        match report_op(&ops[i], opts) {
            Result::Ok(mut ls) => {
                lines.append(&mut ls);
            },
            Result::Err(_) => {
                failed.push(i);
            },
        }
        proof {
            assert(ops@.take(i + 1).drop_last() =~= ops@.take(i as int));
            assert(lines.deep_view() =~~= graph_lines(ops@.take(i + 1), *opts));
            assert(failed@.map_values(|j: usize| j as int) =~= undecodable_indices(
                ops@.take(i + 1),
            ));
        }
        i = i + 1;
    }
    proof {
        assert(ops@.take(ops@.len() as int) =~= ops@);
    }
    (lines, failed)
}

/// The device block of the report: two lines per device, type then name, in
/// the given order.
pub open spec fn devices_report(devices: Seq<Device>) -> Seq<Seq<char>>
    decreases devices.len(),
{
    if devices.len() == 0 {
        Seq::empty()
    } else {
        devices_report(devices.drop_last()) + seq![
            devices.last().device_type@,
            devices.last().name@,
        ]
    }
}

/// Renders each device as two lines, its type then its name, in order.
pub fn device_lines(devices: &Vec<Device>) -> (r: Vec<String>)
    ensures
        r.deep_view() == devices_report(devices@),
{
    let mut lines: Vec<String> = Vec::new();
    let mut i: usize = 0;
    while i < devices.len()
        invariant
            i <= devices@.len(),
            lines.deep_view() == devices_report(devices@.take(i as int)),
        decreases devices@.len() - i,
    {
        lines.push(devices[i].device_type.clone());
        lines.push(devices[i].name.clone());
        proof {
            assert(devices@.take(i + 1).drop_last() =~= devices@.take(i as int));
            assert(lines.deep_view() =~~= devices_report(devices@.take(i + 1)));
        }
        i = i + 1;
    }
    proof {
        assert(devices@.take(devices@.len() as int) =~= devices@);
    }
    lines
}

} // verus!

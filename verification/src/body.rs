//! A point mass, and how a text row is read as one.
//!
//! A row holds five numbers separated by commas: the two components of the
//! position, the two components of the velocity, and the mass. A row that
//! cannot be read is reported with its line number and skipped; the rows
//! around it are read all the same.

use vstd::prelude::*;
use vstd::string::StringExecFns;
use crate::row::row_fields;
use crate::row::split_commas;
use crate::row::trim;
use crate::vector::Vector;

verus! {

/// A point mass: where it is, how it moves, and how heavy it is.
#[derive(Clone, Copy, Debug, PartialEq)]
pub struct Body<T: Vector> {
    /// Position in meters from the origin.
    pub position: T,
    /// Current velocity.
    pub velocity: T,
    /// Acceleration left by the latest force pass.
    pub acceleration: T,
    pub mass: T::Scalar,
}

impl<T: Vector> Body<T> {
    pub fn new(position: T, velocity: T, acceleration: T, mass: T::Scalar) -> (r: Body<T>)
        ensures
            r == (Body::<T> { position, velocity, acceleration, mass }),
    {
        Body { position, velocity, acceleration, mass }
    }
}

/// What a row of columns says: a body at rest in its acceleration, or the
/// reason why the row is none. The columns are judged in order, and the first
/// that is no number gives the reason.
pub open spec fn row_reading<T: Vector>(fields: Seq<Seq<char>>) -> Result<Body<T>, Seq<char>> {
    if fields.len() != 5 {
        Err("invalid number of columns!"@)
    } else {
        match T::parsed(fields[0]) {
            Err(e) => Err(e),
            Ok(px) => match T::parsed(fields[1]) {
                Err(e) => Err(e),
                Ok(py) => match T::parsed(fields[2]) {
                    Err(e) => Err(e),
                    Ok(vx) => match T::parsed(fields[3]) {
                        Err(e) => Err(e),
                        Ok(vy) => match T::parsed(fields[4]) {
                            Err(e) => Err(e),
                            Ok(mass) => Ok(
                                Body {
                                    position: T::planar(px, py),
                                    velocity: T::planar(vx, vy),
                                    acceleration: T::origin(),
                                    mass,
                                },
                            ),
                        },
                    },
                },
            },
        }
    }
}

/// A row that was skipped.
#[derive(Clone, Debug, PartialEq, Eq)]
pub struct RowFailure {
    /// The number of the line, counted from one.
    pub line: usize,
    /// Why the line is no body.
    pub reason: String,
}

/// What reading a whole source gave: the bodies of the rows that could be
/// read, in order, and one failure for each row that could not.
pub struct Ingestion<T: Vector> {
    pub bodies: Vec<Body<T>>,
    pub failures: Vec<RowFailure>,
}

/// The bodies that the lines hold, in order.
pub open spec fn bodies_read<T: Vector>(lines: Seq<Seq<char>>) -> Seq<Body<T>>
    decreases lines.len(),
{
    if lines.len() == 0 {
        Seq::empty()
    } else {
        let before = bodies_read::<T>(lines.drop_last());
        match row_reading::<T>(row_fields(lines.last())) {
            Ok(body) => before.push(body),
            Err(_) => before,
        }
    }
}

/// The lines that hold no body, each with its number counted from one and
/// the reason, in order.
pub open spec fn failures_read<T: Vector>(lines: Seq<Seq<char>>) -> Seq<(int, Seq<char>)>
    decreases lines.len(),
{
    if lines.len() == 0 {
        Seq::empty()
    } else {
        let before = failures_read::<T>(lines.drop_last());
        match row_reading::<T>(row_fields(lines.last())) {
            Ok(_) => before,
            Err(reason) => before.push((lines.len() as int, reason)),
        }
    }
}

/// The texts of some lines.
pub open spec fn texts(lines: Seq<String>) -> Seq<Seq<char>> {
    Seq::new(lines.len(), |i: int| lines[i]@)
}

/// The failures as line numbers and reasons.
pub open spec fn reported(failures: Seq<RowFailure>) -> Seq<(int, Seq<char>)> {
    Seq::new(failures.len(), |i: int| (failures[i].line as int, failures[i].reason@))
}

/// Every line is either read as a body or reported, never both.
pub proof fn every_line_is_accounted_for<T: Vector>(lines: Seq<Seq<char>>)
    ensures
        bodies_read::<T>(lines).len() + failures_read::<T>(lines).len() == lines.len(),
    decreases lines.len(),
{
    if lines.len() > 0 {
        every_line_is_accounted_for::<T>(lines.drop_last());
    }
}

/// Every body that is read from a row starts without acceleration.
pub proof fn bodies_are_read_at_rest<T: Vector>(lines: Seq<Seq<char>>)
    ensures
        forall|k: int|
            0 <= k < bodies_read::<T>(lines).len() ==> (#[trigger] bodies_read::<T>(
                lines,
            )[k]).acceleration == T::origin(),
    decreases lines.len(),
{
    if lines.len() > 0 {
        bodies_are_read_at_rest::<T>(lines.drop_last());
        let before = bodies_read::<T>(lines.drop_last());
        let all = bodies_read::<T>(lines);
        assert forall|k: int| 0 <= k < all.len() implies (#[trigger] all[k]).acceleration
            == T::origin() by {
            if k < before.len() {
                assert(all[k] == before[k]);
            }
        }
    }
}

impl<T: Vector> Body<T> {
    /// Reads one row. White space around the row is ignored.
    pub fn from_str(s: &str) -> (r: Result<Body<T>, String>)
        ensures
            match r {
                Ok(body) => row_reading::<T>(row_fields(s@)) == Ok::<Body<T>, Seq<char>>(body),
                Err(reason) => row_reading::<T>(row_fields(s@)) == Err::<Body<T>, Seq<char>>(
                    reason@,
                ),
            },
    {
        let row = split_commas(trim(s));
        if row.len() != 5 {
            return Err(String::from_str("invalid number of columns!"));
        }
        let px = match T::parse(row[0]) {
            Ok(v) => v,
            Err(e) => { return Err(e); },
        };
        let py = match T::parse(row[1]) {
            Ok(v) => v,
            Err(e) => { return Err(e); },
        };
        let vx = match T::parse(row[2]) {
            Ok(v) => v,
            Err(e) => { return Err(e); },
        };
        let vy = match T::parse(row[3]) {
            Ok(v) => v,
            Err(e) => { return Err(e); },
        };
        let mass = match T::parse(row[4]) {
            Ok(v) => v,
            Err(e) => { return Err(e); },
        };
        Ok(
            Body::new(
                T::in_plane(px, py),
                T::in_plane(vx, vy),
                T::zero(),
                mass,
            ),
        )
    }

    /// Reads every line as a row. A line that is no body is reported with its
    /// number and skipped; the lines after it are still read.
    pub fn from_lines(lines: &Vec<String>) -> (r: Ingestion<T>)
        ensures
            r.bodies@ == bodies_read::<T>(texts(lines@)),
            reported(r.failures@) == failures_read::<T>(texts(lines@)),
    {
        let mut bodies: Vec<Body<T>> = Vec::new();
        let mut failures: Vec<RowFailure> = Vec::new();
        let len = lines.len();
        let mut i: usize = 0;
        assert(texts(lines@).take(0) =~= Seq::empty());
        while i < len
            invariant
                i <= len,
                len == lines.len(),
                bodies@ == bodies_read::<T>(texts(lines@).take(i as int)),
                reported(failures@) =~= failures_read::<T>(texts(lines@).take(i as int)),
            decreases len - i,
        {
            proof {
                let next = texts(lines@).take(i + 1);
                assert(next.drop_last() =~= texts(lines@).take(i as int));
                assert(next.last() == lines@[i as int]@);
            }
            let ghost before = reported(failures@);
            match Self::from_str(lines[i].as_str()) {
                Ok(body) => {
                    bodies.push(body);
                },
                Err(reason) => {
                    failures.push(RowFailure { line: i + 1, reason });
                    assert(reported(failures@) =~= before.push(((i + 1) as int, reason@)));
                },
            }
            i += 1;
        }
        assert(texts(lines@).take(len as int) =~= texts(lines@));
        Ingestion { bodies, failures }
    }
}

} // verus!

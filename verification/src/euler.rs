//! Euler rotation orders, exposed to Python as an integer-valued enum:
//! each order equals its position in the declaration (`EulerRot.ZYX == 0`,
//! `EulerRot.XYZ == 4`).

use vstd::prelude::*;

verus! {

/// Order in which three Euler angles are applied; the `Ex` variants are the
/// extrinsic counterparts of the intrinsic orders.
#[derive(Debug, Clone, Copy, PartialEq, Eq, Structural, Hash)]
pub enum PyEulerRot {
    ZYX,
    ZXY,
    YXZ,
    YZX,
    XYZ,
    XZY,
    ZYZ,
    ZXZ,
    YXY,
    YZY,
    XYX,
    XZX,
    ZYXEx,
    ZXYEx,
    YXZEx,
    YZXEx,
    XYZEx,
    XZYEx,
    ZYZEx,
    ZXZEx,
    YXYEx,
    YZYEx,
    XYXEx,
    XZXEx,
}

/// Number of rotation orders.
pub const EULER_ORDER_COUNT: usize = 24;

/// The integer that a rotation order compares equal to in Python.
pub open spec fn euler_code(e: PyEulerRot) -> int {
    match e {
        PyEulerRot::ZYX => 0,
        PyEulerRot::ZXY => 1,
        PyEulerRot::YXZ => 2,
        PyEulerRot::YZX => 3,
        PyEulerRot::XYZ => 4,
        PyEulerRot::XZY => 5,
        PyEulerRot::ZYZ => 6,
        PyEulerRot::ZXZ => 7,
        PyEulerRot::YXY => 8,
        PyEulerRot::YZY => 9,
        PyEulerRot::XYX => 10,
        PyEulerRot::XZX => 11,
        PyEulerRot::ZYXEx => 12,
        PyEulerRot::ZXYEx => 13,
        PyEulerRot::YXZEx => 14,
        PyEulerRot::YZXEx => 15,
        PyEulerRot::XYZEx => 16,
        PyEulerRot::XZYEx => 17,
        PyEulerRot::ZYZEx => 18,
        PyEulerRot::ZXZEx => 19,
        PyEulerRot::YXYEx => 20,
        PyEulerRot::YZYEx => 21,
        PyEulerRot::XYXEx => 22,
        PyEulerRot::XZXEx => 23,
    }
}

/// The rotation order with the given integer value, if any.
pub open spec fn euler_from_code(code: int) -> Option<PyEulerRot> {
    if code == 0 {
        Some(PyEulerRot::ZYX)
    } else if code == 1 {
        Some(PyEulerRot::ZXY)
    } else if code == 2 {
        Some(PyEulerRot::YXZ)
    } else if code == 3 {
        Some(PyEulerRot::YZX)
    } else if code == 4 {
        Some(PyEulerRot::XYZ)
    } else if code == 5 {
        Some(PyEulerRot::XZY)
    } else if code == 6 {
        Some(PyEulerRot::ZYZ)
    } else if code == 7 {
        Some(PyEulerRot::ZXZ)
    } else if code == 8 {
        Some(PyEulerRot::YXY)
    } else if code == 9 {
        Some(PyEulerRot::YZY)
    } else if code == 10 {
        Some(PyEulerRot::XYX)
    } else if code == 11 {
        Some(PyEulerRot::XZX)
    } else if code == 12 {
        Some(PyEulerRot::ZYXEx)
    } else if code == 13 {
        Some(PyEulerRot::ZXYEx)
    } else if code == 14 {
        Some(PyEulerRot::YXZEx)
    } else if code == 15 {
        Some(PyEulerRot::YZXEx)
    } else if code == 16 {
        Some(PyEulerRot::XYZEx)
    } else if code == 17 {
        Some(PyEulerRot::XZYEx)
    } else if code == 18 {
        Some(PyEulerRot::ZYZEx)
    } else if code == 19 {
        Some(PyEulerRot::ZXZEx)
    } else if code == 20 {
        Some(PyEulerRot::YXYEx)
    } else if code == 21 {
        Some(PyEulerRot::YZYEx)
    } else if code == 22 {
        Some(PyEulerRot::XYXEx)
    } else if code == 23 {
        Some(PyEulerRot::XZXEx)
    } else {
        None
    }
}

impl PyEulerRot {
    /// The integer value of this order.
    pub fn value(self) -> (r: u8)
        ensures
            r as int == euler_code(self),
    {
        match self {
            PyEulerRot::ZYX => 0,
            PyEulerRot::ZXY => 1,
            PyEulerRot::YXZ => 2,
            PyEulerRot::YZX => 3,
            PyEulerRot::XYZ => 4,
            PyEulerRot::XZY => 5,
            PyEulerRot::ZYZ => 6,
            PyEulerRot::ZXZ => 7,
            PyEulerRot::YXY => 8,
            PyEulerRot::YZY => 9,
            PyEulerRot::XYX => 10,
            PyEulerRot::XZX => 11,
            PyEulerRot::ZYXEx => 12,
            PyEulerRot::ZXYEx => 13,
            PyEulerRot::YXZEx => 14,
            PyEulerRot::YZXEx => 15,
            PyEulerRot::XYZEx => 16,
            PyEulerRot::XZYEx => 17,
            PyEulerRot::ZYZEx => 18,
            PyEulerRot::ZXZEx => 19,
            PyEulerRot::YXYEx => 20,
            PyEulerRot::YZYEx => 21,
            PyEulerRot::XYXEx => 22,
            PyEulerRot::XZXEx => 23,
        }
    }

    /// The order whose integer value is `code`; `None` outside `0..24`.
    pub fn from_value(code: i64) -> (r: Option<PyEulerRot>)
        ensures
            r == euler_from_code(code as int),
    {
        match code {
            0 => Some(PyEulerRot::ZYX),
            1 => Some(PyEulerRot::ZXY),
            2 => Some(PyEulerRot::YXZ),
            3 => Some(PyEulerRot::YZX),
            4 => Some(PyEulerRot::XYZ),
            5 => Some(PyEulerRot::XZY),
            6 => Some(PyEulerRot::ZYZ),
            7 => Some(PyEulerRot::ZXZ),
            8 => Some(PyEulerRot::YXY),
            9 => Some(PyEulerRot::YZY),
            10 => Some(PyEulerRot::XYX),
            11 => Some(PyEulerRot::XZX),
            12 => Some(PyEulerRot::ZYXEx),
            13 => Some(PyEulerRot::ZXYEx),
            14 => Some(PyEulerRot::YXZEx),
            15 => Some(PyEulerRot::YZXEx),
            16 => Some(PyEulerRot::XYZEx),
            17 => Some(PyEulerRot::XZYEx),
            18 => Some(PyEulerRot::ZYZEx),
            19 => Some(PyEulerRot::ZXZEx),
            20 => Some(PyEulerRot::YXYEx),
            21 => Some(PyEulerRot::YZYEx),
            22 => Some(PyEulerRot::XYXEx),
            23 => Some(PyEulerRot::XZXEx),
            _ => None,
        }
    }

    /// Python equality against an integer: true exactly when the integer is
    /// this order's value.
    pub fn eq_int(self, other: i64) -> (r: bool)
        ensures
            r == (euler_code(self) == other as int),
    {
        self.value() as i64 == other
    }

    /// Every rotation order, in declaration order.
    pub fn all() -> (v: Vec<PyEulerRot>)
        ensures
            v@.len() == EULER_ORDER_COUNT,
            forall|i: int| 0 <= i < EULER_ORDER_COUNT ==> euler_code(#[trigger] v@[i]) == i,
    {
        let mut v: Vec<PyEulerRot> = Vec::new();
        v.push(PyEulerRot::ZYX);
        v.push(PyEulerRot::ZXY);
        v.push(PyEulerRot::YXZ);
        v.push(PyEulerRot::YZX);
        v.push(PyEulerRot::XYZ);
        v.push(PyEulerRot::XZY);
        v.push(PyEulerRot::ZYZ);
        v.push(PyEulerRot::ZXZ);
        v.push(PyEulerRot::YXY);
        v.push(PyEulerRot::YZY);
        v.push(PyEulerRot::XYX);
        v.push(PyEulerRot::XZX);
        v.push(PyEulerRot::ZYXEx);
        v.push(PyEulerRot::ZXYEx);
        v.push(PyEulerRot::YXZEx);
        v.push(PyEulerRot::YZXEx);
        v.push(PyEulerRot::XYZEx);
        v.push(PyEulerRot::XZYEx);
        v.push(PyEulerRot::ZYZEx);
        v.push(PyEulerRot::ZXZEx);
        v.push(PyEulerRot::YXYEx);
        v.push(PyEulerRot::YZYEx);
        v.push(PyEulerRot::XYXEx);
        v.push(PyEulerRot::XZXEx);
        v
    }
}

/// Every order's value lies in `0..24` and maps back to the order.
pub proof fn lemma_euler_code_round_trip(e: PyEulerRot)
    ensures
        0 <= euler_code(e) < EULER_ORDER_COUNT,
        euler_from_code(euler_code(e)) == Some(e),
{
}

/// Every value in `0..24` names an order whose value it is; no other
/// integer names an order.
pub proof fn lemma_euler_from_code_round_trip(code: int)
    ensures
        euler_from_code(code) is Some <==> 0 <= code < EULER_ORDER_COUNT,
        euler_from_code(code) matches Some(e) ==> euler_code(e) == code,
{
}

/// Distinct orders have distinct values, so equality of orders is equality
/// of their values.
pub proof fn lemma_euler_code_injective(a: PyEulerRot, b: PyEulerRot)
    ensures
        (euler_code(a) == euler_code(b)) <==> (a == b),
{
    lemma_euler_code_round_trip(a);
    lemma_euler_code_round_trip(b);
}

/// Each rotation order's integer is its position in the declaration:
/// `ZYX` is 0, `ZXY` 1, …, `XZXEx` 23.
pub proof fn lemma_euler_codes_follow_declaration()
    ensures
        euler_code(PyEulerRot::ZYX) == 0,
        euler_code(PyEulerRot::ZXY) == 1,
        euler_code(PyEulerRot::YXZ) == 2,
        euler_code(PyEulerRot::YZX) == 3,
        euler_code(PyEulerRot::XYZ) == 4,
        euler_code(PyEulerRot::XZY) == 5,
        euler_code(PyEulerRot::ZYZ) == 6,
        euler_code(PyEulerRot::ZXZ) == 7,
        euler_code(PyEulerRot::YXY) == 8,
        euler_code(PyEulerRot::YZY) == 9,
        euler_code(PyEulerRot::XYX) == 10,
        euler_code(PyEulerRot::XZX) == 11,
        euler_code(PyEulerRot::ZYXEx) == 12,
        euler_code(PyEulerRot::ZXYEx) == 13,
        euler_code(PyEulerRot::YXZEx) == 14,
        euler_code(PyEulerRot::YZXEx) == 15,
        euler_code(PyEulerRot::XYZEx) == 16,
        euler_code(PyEulerRot::XZYEx) == 17,
        euler_code(PyEulerRot::ZYZEx) == 18,
        euler_code(PyEulerRot::ZXZEx) == 19,
        euler_code(PyEulerRot::YXYEx) == 20,
        euler_code(PyEulerRot::YZYEx) == 21,
        euler_code(PyEulerRot::XYXEx) == 22,
        euler_code(PyEulerRot::XZXEx) == 23,
{
}

/// The extrinsic counterpart of each intrinsic order comes twelve places
/// after it, and the intrinsic orders take the codes below twelve.
pub proof fn lemma_extrinsic_orders_follow_intrinsic()
    ensures
        euler_code(PyEulerRot::ZYXEx) == euler_code(PyEulerRot::ZYX) + 12,
        euler_code(PyEulerRot::ZXYEx) == euler_code(PyEulerRot::ZXY) + 12,
        euler_code(PyEulerRot::YXZEx) == euler_code(PyEulerRot::YXZ) + 12,
        euler_code(PyEulerRot::YZXEx) == euler_code(PyEulerRot::YZX) + 12,
        euler_code(PyEulerRot::XYZEx) == euler_code(PyEulerRot::XYZ) + 12,
        euler_code(PyEulerRot::XZYEx) == euler_code(PyEulerRot::XZY) + 12,
        euler_code(PyEulerRot::ZYZEx) == euler_code(PyEulerRot::ZYZ) + 12,
        euler_code(PyEulerRot::ZXZEx) == euler_code(PyEulerRot::ZXZ) + 12,
        euler_code(PyEulerRot::YXYEx) == euler_code(PyEulerRot::YXY) + 12,
        euler_code(PyEulerRot::YZYEx) == euler_code(PyEulerRot::YZY) + 12,
        euler_code(PyEulerRot::XYXEx) == euler_code(PyEulerRot::XYX) + 12,
        euler_code(PyEulerRot::XZXEx) == euler_code(PyEulerRot::XZX) + 12,
        forall|e: PyEulerRot| #[trigger] euler_code(e) < 12 <==> !is_extrinsic(e),
{
}

/// Whether the order is one of the extrinsic (`Ex`) variants.
pub open spec fn is_extrinsic(e: PyEulerRot) -> bool {
    match e {
        PyEulerRot::ZYX => false,
        PyEulerRot::ZXY => false,
        PyEulerRot::YXZ => false,
        PyEulerRot::YZX => false,
        PyEulerRot::XYZ => false,
        PyEulerRot::XZY => false,
        PyEulerRot::ZYZ => false,
        PyEulerRot::ZXZ => false,
        PyEulerRot::YXY => false,
        PyEulerRot::YZY => false,
        PyEulerRot::XYX => false,
        PyEulerRot::XZX => false,
        PyEulerRot::ZYXEx => true,
        PyEulerRot::ZXYEx => true,
        PyEulerRot::YXZEx => true,
        PyEulerRot::YZXEx => true,
        PyEulerRot::XYZEx => true,
        PyEulerRot::XZYEx => true,
        PyEulerRot::ZYZEx => true,
        PyEulerRot::ZXZEx => true,
        PyEulerRot::YXYEx => true,
        PyEulerRot::YZYEx => true,
        PyEulerRot::XYXEx => true,
        PyEulerRot::XZXEx => true,
    }
}

} // verus!

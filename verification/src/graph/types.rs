//! Small value types that name the identity, port and hop limit of a simulated node.

use std::cmp::Ordering;

use vstd::prelude::*;
use vstd::std_specs::cmp::PartialEqSpec;
use vstd::std_specs::cmp::PartialEqSpecImpl;
use vstd::std_specs::cmp::PartialOrdSpec;
use vstd::std_specs::cmp::PartialOrdSpecImpl;
use vstd::std_specs::convert::FromSpecImpl;
use vstd::std_specs::convert::FromSpec;

use crate::text::{decimal, decimal_string};

verus! {

/// The engine id of a node.
#[derive(Copy, Clone, Debug, Default, PartialEq, Eq, Structural, Ord, Hash)]
pub struct Id(u32);

impl Id {
    /// The number this id wraps.
    pub closed spec fn value(self) -> u32 {
        self.0
    }

    /// Creates a new Id from a u32.
    pub fn new(id: u32) -> (res: Self)
        ensures
            res.value() == id,
    {
        Id(id)
    }

    /// Returns the u32 data of the Id.
    pub fn data(&self) -> (res: u32)
        ensures
            res == self.value(),
    {
        self.0
    }

    /// The decimal text of the id, as it is displayed.
    pub fn to_string(&self) -> (res: String)
        ensures
            res@ == decimal(self.value() as nat),
    {
        decimal_string(self.0 as u64)
    }
}

impl PartialEq<u32> for Id {
    fn eq(&self, other: &u32) -> (res: bool) {
        self.0 == *other
    }
}

impl PartialEqSpecImpl<u32> for Id {
    open spec fn obeys_eq_spec() -> bool {
        true
    }

    open spec fn eq_spec(&self, other: &u32) -> bool {
        self.value() == *other
    }
}

impl PartialOrd<u32> for Id {
    fn partial_cmp(&self, other: &u32) -> (res: Option<Ordering>) {
        if self.0 < *other {
            Some(Ordering::Less)
        } else if self.0 == *other {
            Some(Ordering::Equal)
        } else {
            Some(Ordering::Greater)
        }
    }
}

impl PartialOrdSpecImpl<u32> for Id {
    open spec fn obeys_partial_cmp_spec() -> bool {
        true
    }

    open spec fn partial_cmp_spec(&self, other: &u32) -> Option<Ordering> {
        if self.value() < *other {
            Some(Ordering::Less)
        } else if self.value() == *other {
            Some(Ordering::Equal)
        } else {
            Some(Ordering::Greater)
        }
    }
}

impl PartialOrd for Id {
    fn partial_cmp(&self, other: &Id) -> (res: Option<Ordering>) {
        if self.0 < other.0 {
            Some(Ordering::Less)
        } else if self.0 == other.0 {
            Some(Ordering::Equal)
        } else {
            Some(Ordering::Greater)
        }
    }
}

impl PartialOrdSpecImpl for Id {
    open spec fn obeys_partial_cmp_spec() -> bool {
        true
    }

    open spec fn partial_cmp_spec(&self, other: &Id) -> Option<Ordering> {
        if self.value() < other.value() {
            Some(Ordering::Less)
        } else if self.value() == other.value() {
            Some(Ordering::Equal)
        } else {
            Some(Ordering::Greater)
        }
    }
}

impl From<u32> for Id {
    fn from(value: u32) -> (res: Self) {
        Id(value)
    }
}

impl FromSpecImpl<u32> for Id {
    open spec fn obeys_from_spec() -> bool {
        true
    }

    closed spec fn from_spec(v: u32) -> Self {
        Id(v)
    }
}


/// A TCP port number.
#[derive(Copy, Clone, Debug, Default, PartialEq, Eq, Structural, Ord, Hash)]
pub struct TcpPort(u32);

impl TcpPort {
    /// The number this value wraps.
    pub closed spec fn value(self) -> u32 {
        self.0
    }

    /// Creates a new TcpPort from a u32.
    pub fn new(id: u32) -> (res: Self)
        ensures
            res.value() == id,
    {
        TcpPort(id)
    }

    /// Returns the u32 data of the TcpPort.
    pub fn data(&self) -> (res: u32)
        ensures
            res == self.value(),
    {
        self.0
    }

    /// The decimal text of the value, as it is displayed.
    pub fn to_string(&self) -> (res: String)
        ensures
            res@ == decimal(self.value() as nat),
    {
        decimal_string(self.0 as u64)
    }
}

impl PartialEq<u32> for TcpPort {
    fn eq(&self, other: &u32) -> (res: bool) {
        self.0 == *other
    }
}

impl PartialEqSpecImpl<u32> for TcpPort {
    open spec fn obeys_eq_spec() -> bool {
        true
    }

    open spec fn eq_spec(&self, other: &u32) -> bool {
        self.value() == *other
    }
}

impl PartialOrd<u32> for TcpPort {
    fn partial_cmp(&self, other: &u32) -> (res: Option<Ordering>) {
        if self.0 < *other {
            Some(Ordering::Less)
        } else if self.0 == *other {
            Some(Ordering::Equal)
        } else {
            Some(Ordering::Greater)
        }
    }
}

impl PartialOrdSpecImpl<u32> for TcpPort {
    open spec fn obeys_partial_cmp_spec() -> bool {
        true
    }

    open spec fn partial_cmp_spec(&self, other: &u32) -> Option<Ordering> {
        if self.value() < *other {
            Some(Ordering::Less)
        } else if self.value() == *other {
            Some(Ordering::Equal)
        } else {
            Some(Ordering::Greater)
        }
    }
}

impl PartialOrd for TcpPort {
    fn partial_cmp(&self, other: &TcpPort) -> (res: Option<Ordering>) {
        if self.0 < other.0 {
            Some(Ordering::Less)
        } else if self.0 == other.0 {
            Some(Ordering::Equal)
        } else {
            Some(Ordering::Greater)
        }
    }
}

impl PartialOrdSpecImpl for TcpPort {
    open spec fn obeys_partial_cmp_spec() -> bool {
        true
    }

    open spec fn partial_cmp_spec(&self, other: &TcpPort) -> Option<Ordering> {
        if self.value() < other.value() {
            Some(Ordering::Less)
        } else if self.value() == other.value() {
            Some(Ordering::Equal)
        } else {
            Some(Ordering::Greater)
        }
    }
}

impl From<u32> for TcpPort {
    fn from(value: u32) -> (res: Self) {
        TcpPort(value)
    }
}

impl FromSpecImpl<u32> for TcpPort {
    open spec fn obeys_from_spec() -> bool {
        true
    }

    closed spec fn from_spec(v: u32) -> Self {
        TcpPort(v)
    }
}

/// The largest hop limit the firmware accepts.
pub const MAX_HOP_LIMIT: u8 = 7;

/// The hop limit a node gets when none is given.
pub const DEFAULT_HOP_LIMIT: u8 = 3;

/// The message with which `HopLimit::new` refuses a value above `MAX_HOP_LIMIT`.
pub open spec fn hop_limit_range_message() -> Seq<char> {
    "Hop limit must be in range [0,7]"@
}


/// The hop limit of a node.
/// This value must be in the range [0,7]. `HopLimit::new` and `default` keep to it;
/// `From<u8>` wraps any `u8` unchecked.
#[derive(Copy, Clone, Debug, PartialEq, Eq, Structural, Ord, Hash)]
pub struct HopLimit(u8);

impl HopLimit {
    /// The number this value wraps.
    pub closed spec fn value(self) -> u8 {
        self.0
    }

    /// Creates a new HopLimit from a u8.
    /// Returns an error if the value is not in the range [0,7].
    pub fn new(hop_limit: u8) -> (res: Result<Self, String>)
        ensures
            res is Ok <==> hop_limit <= 7,
            res matches Ok(h) ==> h.value() == hop_limit,
            res matches Err(e) ==> e@ == hop_limit_range_message(),
    {
        if hop_limit > MAX_HOP_LIMIT {
            return Err(String::from_str("Hop limit must be in range [0,7]"));
        }
        Ok(HopLimit(hop_limit))
    }

    /// Returns the u8 data of the HopLimit.
    pub fn data(&self) -> (res: u8)
        ensures
            res == self.value(),
    {
        self.0
    }

    /// The decimal text of the value, as it is displayed.
    pub fn to_string(&self) -> (res: String)
        ensures
            res@ == decimal(self.value() as nat),
    {
        decimal_string(self.0 as u64)
    }
}

impl PartialEq<u8> for HopLimit {
    fn eq(&self, other: &u8) -> (res: bool) {
        self.0 == *other
    }
}

impl PartialEqSpecImpl<u8> for HopLimit {
    open spec fn obeys_eq_spec() -> bool {
        true
    }

    open spec fn eq_spec(&self, other: &u8) -> bool {
        self.value() == *other
    }
}

impl PartialOrd<u8> for HopLimit {
    fn partial_cmp(&self, other: &u8) -> (res: Option<Ordering>) {
        if self.0 < *other {
            Some(Ordering::Less)
        } else if self.0 == *other {
            Some(Ordering::Equal)
        } else {
            Some(Ordering::Greater)
        }
    }
}

impl PartialOrdSpecImpl<u8> for HopLimit {
    open spec fn obeys_partial_cmp_spec() -> bool {
        true
    }

    open spec fn partial_cmp_spec(&self, other: &u8) -> Option<Ordering> {
        if self.value() < *other {
            Some(Ordering::Less)
        } else if self.value() == *other {
            Some(Ordering::Equal)
        } else {
            Some(Ordering::Greater)
        }
    }
}

impl PartialOrd for HopLimit {
    fn partial_cmp(&self, other: &HopLimit) -> (res: Option<Ordering>) {
        if self.0 < other.0 {
            Some(Ordering::Less)
        } else if self.0 == other.0 {
            Some(Ordering::Equal)
        } else {
            Some(Ordering::Greater)
        }
    }
}

impl PartialOrdSpecImpl for HopLimit {
    open spec fn obeys_partial_cmp_spec() -> bool {
        true
    }

    open spec fn partial_cmp_spec(&self, other: &HopLimit) -> Option<Ordering> {
        if self.value() < other.value() {
            Some(Ordering::Less)
        } else if self.value() == other.value() {
            Some(Ordering::Equal)
        } else {
            Some(Ordering::Greater)
        }
    }
}

impl From<u8> for HopLimit {
    fn from(value: u8) -> (res: Self) {
        HopLimit(value)
    }
}

impl FromSpecImpl<u8> for HopLimit {
    open spec fn obeys_from_spec() -> bool {
        true
    }

    closed spec fn from_spec(v: u8) -> Self {
        HopLimit(v)
    }
}

impl Default for HopLimit {
    fn default() -> (res: Self)
        ensures
            res.value() == 3,
    {
        HopLimit(DEFAULT_HOP_LIMIT)
    }
}

/// Two values of `Id` are equal exactly when the numbers they wrap are: the
/// number determines the value, so `Id::from(v)`, `Id::new(v)` and any other
/// Id wrapping `v` are one and the same.
pub proof fn lemma_id_equal_iff_value(a: Id, b: Id)
    ensures
        (a == b) <==> (a.value() == b.value()),
{
}

/// Converting a number into an `Id` keeps the number: `Id::from(v).data() == v`,
/// and `Id::from(v)` is the value that wraps `v`.
pub proof fn lemma_id_from_keeps_value(v: u32)
    ensures
        <Id as FromSpec<u32>>::from_spec(v).value() == v,
        forall|x: Id| #[trigger] x.value() == v ==> x == <Id as FromSpec<u32>>::from_spec(v),
{
}

/// Two values of `TcpPort` are equal exactly when the numbers they wrap are: the
/// number determines the value, so `TcpPort::from(v)`, `TcpPort::new(v)` and any other
/// TcpPort wrapping `v` are one and the same.
pub proof fn lemma_tcp_port_equal_iff_value(a: TcpPort, b: TcpPort)
    ensures
        (a == b) <==> (a.value() == b.value()),
{
}

/// Converting a number into a `TcpPort` keeps the number: `TcpPort::from(v).data() == v`,
/// and `TcpPort::from(v)` is the value that wraps `v`.
pub proof fn lemma_tcp_port_from_keeps_value(v: u32)
    ensures
        <TcpPort as FromSpec<u32>>::from_spec(v).value() == v,
        forall|x: TcpPort| #[trigger] x.value() == v ==> x == <TcpPort as FromSpec<u32>>::from_spec(v),
{
}

/// Two values of `HopLimit` are equal exactly when the numbers they wrap are: the
/// number determines the value, so `HopLimit::from(v)`, `HopLimit::new(v)` and any other
/// HopLimit wrapping `v` are one and the same.
pub proof fn lemma_hop_limit_equal_iff_value(a: HopLimit, b: HopLimit)
    ensures
        (a == b) <==> (a.value() == b.value()),
{
}

/// Converting a number into a `HopLimit` keeps the number: `HopLimit::from(v).data() == v`,
/// and `HopLimit::from(v)` is the value that wraps `v`.
pub proof fn lemma_hop_limit_from_keeps_value(v: u8)
    ensures
        <HopLimit as FromSpec<u8>>::from_spec(v).value() == v,
        forall|x: HopLimit| #[trigger] x.value() == v ==> x == <HopLimit as FromSpec<u8>>::from_spec(v),
{
}

/// Values of `Id` are ordered by the numbers they wrap: `a < b`, `a == b` and
/// `a > b` exactly when the same holds of the numbers.
pub proof fn lemma_id_order_follows_value(a: Id, b: Id)
    ensures
        (PartialOrdSpec::partial_cmp_spec(&a, &b) == Some(Ordering::Less)) <==> a.value() < b.value(),
        (PartialOrdSpec::partial_cmp_spec(&a, &b) == Some(Ordering::Equal)) <==> a == b,
        (PartialOrdSpec::partial_cmp_spec(&a, &b) == Some(Ordering::Greater)) <==> a.value() > b.value(),
{
    lemma_id_equal_iff_value(a, b);
}

/// Values of `TcpPort` are ordered by the numbers they wrap: `a < b`, `a == b` and
/// `a > b` exactly when the same holds of the numbers.
pub proof fn lemma_tcp_port_order_follows_value(a: TcpPort, b: TcpPort)
    ensures
        (PartialOrdSpec::partial_cmp_spec(&a, &b) == Some(Ordering::Less)) <==> a.value() < b.value(),
        (PartialOrdSpec::partial_cmp_spec(&a, &b) == Some(Ordering::Equal)) <==> a == b,
        (PartialOrdSpec::partial_cmp_spec(&a, &b) == Some(Ordering::Greater)) <==> a.value() > b.value(),
{
    lemma_tcp_port_equal_iff_value(a, b);
}

/// Values of `HopLimit` are ordered by the numbers they wrap: `a < b`, `a == b` and
/// `a > b` exactly when the same holds of the numbers.
pub proof fn lemma_hop_limit_order_follows_value(a: HopLimit, b: HopLimit)
    ensures
        (PartialOrdSpec::partial_cmp_spec(&a, &b) == Some(Ordering::Less)) <==> a.value() < b.value(),
        (PartialOrdSpec::partial_cmp_spec(&a, &b) == Some(Ordering::Equal)) <==> a == b,
        (PartialOrdSpec::partial_cmp_spec(&a, &b) == Some(Ordering::Greater)) <==> a.value() > b.value(),
{
    lemma_hop_limit_equal_iff_value(a, b);
}

/// Comparing a `Id` with a plain number compares the number it wraps: it is
/// equal, less or greater exactly when its number is.
pub proof fn lemma_id_compares_with_number(a: Id, v: u32)
    ensures
        PartialEqSpec::<u32>::eq_spec(&a, &v) <==> a.value() == v,
        (PartialOrdSpec::<u32>::partial_cmp_spec(&a, &v) == Some(Ordering::Less)) <==> a.value() < v,
        (PartialOrdSpec::<u32>::partial_cmp_spec(&a, &v) == Some(Ordering::Equal)) <==> a.value() == v,
        (PartialOrdSpec::<u32>::partial_cmp_spec(&a, &v) == Some(Ordering::Greater)) <==> a.value() > v,
{
}

/// Comparing a `TcpPort` with a plain number compares the number it wraps: it is
/// equal, less or greater exactly when its number is.
pub proof fn lemma_tcp_port_compares_with_number(a: TcpPort, v: u32)
    ensures
        PartialEqSpec::<u32>::eq_spec(&a, &v) <==> a.value() == v,
        (PartialOrdSpec::<u32>::partial_cmp_spec(&a, &v) == Some(Ordering::Less)) <==> a.value() < v,
        (PartialOrdSpec::<u32>::partial_cmp_spec(&a, &v) == Some(Ordering::Equal)) <==> a.value() == v,
        (PartialOrdSpec::<u32>::partial_cmp_spec(&a, &v) == Some(Ordering::Greater)) <==> a.value() > v,
{
}

/// Comparing a `HopLimit` with a plain number compares the number it wraps: it is
/// equal, less or greater exactly when its number is.
pub proof fn lemma_hop_limit_compares_with_number(a: HopLimit, v: u8)
    ensures
        PartialEqSpec::<u8>::eq_spec(&a, &v) <==> a.value() == v,
        (PartialOrdSpec::<u8>::partial_cmp_spec(&a, &v) == Some(Ordering::Less)) <==> a.value() < v,
        (PartialOrdSpec::<u8>::partial_cmp_spec(&a, &v) == Some(Ordering::Equal)) <==> a.value() == v,
        (PartialOrdSpec::<u8>::partial_cmp_spec(&a, &v) == Some(Ordering::Greater)) <==> a.value() > v,
{
}

} // verus!

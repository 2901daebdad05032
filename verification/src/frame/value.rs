//! Domain value types.
//!
//! A Modbus address, a quantity, a register value and a unit identifier are
//! different things that happen to share a width. Each gets its own type so
//! passing one where another is meant does not compile.
//!
//! The wrappers are transparent and impose no validation: every value the wire
//! can carry is constructible. Which values are sensible is decided where the
//! value is encoded.

use vstd::prelude::*;
use vstd::std_specs::convert::FromSpecImpl;

use crate::text::decimal;

verus! {

/// The address every server on a serial line acts on and none answers.
pub const BROADCAST_UNIT: u8 = 0;

/// A server address on a serial line, or the unit identifier of an MBAP header.
#[derive(Debug, Clone, Copy, PartialEq, Eq, PartialOrd, Ord, Hash, Structural)]
pub struct UnitId(pub u8);

impl From<u8> for UnitId {
    fn from(value: u8) -> (r: Self)
        ensures
            r.0 == value,
    {
        UnitId(value)
    }
}

impl FromSpecImpl<u8> for UnitId {
    open spec fn obeys_from_spec() -> bool {
        true
    }

    open spec fn from_spec(v: u8) -> UnitId {
        UnitId(v)
    }
}

impl From<UnitId> for u8 {
    fn from(value: UnitId) -> (r: Self)
        ensures
            r == value.0,
    {
        value.0
    }
}

impl FromSpecImpl<UnitId> for u8 {
    open spec fn obeys_from_spec() -> bool {
        true
    }

    open spec fn from_spec(v: UnitId) -> u8 {
        v.0
    }
}

impl UnitId {
    /// The bare wrapped value in decimal, with no type name or punctuation.
    pub fn to_string(&self) -> (s: String)
        ensures
            s@ == crate::text::spec_decimal(self.0 as nat),
    {
        decimal(self.0 as u64)
    }
}

/// The transaction identifier of an MBAP header, by which a response is matched to its request.
#[derive(Debug, Clone, Copy, PartialEq, Eq, PartialOrd, Ord, Hash, Structural)]
pub struct TransactionId(pub u16);

impl From<u16> for TransactionId {
    fn from(value: u16) -> (r: Self)
        ensures
            r.0 == value,
    {
        TransactionId(value)
    }
}

impl FromSpecImpl<u16> for TransactionId {
    open spec fn obeys_from_spec() -> bool {
        true
    }

    open spec fn from_spec(v: u16) -> TransactionId {
        TransactionId(v)
    }
}

impl From<TransactionId> for u16 {
    fn from(value: TransactionId) -> (r: Self)
        ensures
            r == value.0,
    {
        value.0
    }
}

impl FromSpecImpl<TransactionId> for u16 {
    open spec fn obeys_from_spec() -> bool {
        true
    }

    open spec fn from_spec(v: TransactionId) -> u16 {
        v.0
    }
}

impl TransactionId {
    /// The bare wrapped value in decimal, with no type name or punctuation.
    pub fn to_string(&self) -> (s: String)
        ensures
            s@ == crate::text::spec_decimal(self.0 as nat),
    {
        decimal(self.0 as u64)
    }
}

/// A data address: the start of a range, or the single item written.
#[derive(Debug, Clone, Copy, PartialEq, Eq, PartialOrd, Ord, Hash, Structural)]
pub struct Address(pub u16);

impl From<u16> for Address {
    fn from(value: u16) -> (r: Self)
        ensures
            r.0 == value,
    {
        Address(value)
    }
}

impl FromSpecImpl<u16> for Address {
    open spec fn obeys_from_spec() -> bool {
        true
    }

    open spec fn from_spec(v: u16) -> Address {
        Address(v)
    }
}

impl From<Address> for u16 {
    fn from(value: Address) -> (r: Self)
        ensures
            r == value.0,
    {
        value.0
    }
}

impl FromSpecImpl<Address> for u16 {
    open spec fn obeys_from_spec() -> bool {
        true
    }

    open spec fn from_spec(v: Address) -> u16 {
        v.0
    }
}

impl Address {
    /// The bare wrapped value in decimal, with no type name or punctuation.
    pub fn to_string(&self) -> (s: String)
        ensures
            s@ == crate::text::spec_decimal(self.0 as nat),
    {
        decimal(self.0 as u64)
    }
}

/// A count of coils, discrete inputs, or registers.
#[derive(Debug, Clone, Copy, PartialEq, Eq, PartialOrd, Ord, Hash, Structural)]
pub struct Quantity(pub u16);

impl From<u16> for Quantity {
    fn from(value: u16) -> (r: Self)
        ensures
            r.0 == value,
    {
        Quantity(value)
    }
}

impl FromSpecImpl<u16> for Quantity {
    open spec fn obeys_from_spec() -> bool {
        true
    }

    open spec fn from_spec(v: u16) -> Quantity {
        Quantity(v)
    }
}

impl From<Quantity> for u16 {
    fn from(value: Quantity) -> (r: Self)
        ensures
            r == value.0,
    {
        value.0
    }
}

impl FromSpecImpl<Quantity> for u16 {
    open spec fn obeys_from_spec() -> bool {
        true
    }

    open spec fn from_spec(v: Quantity) -> u16 {
        v.0
    }
}

impl Quantity {
    /// The bare wrapped value in decimal, with no type name or punctuation.
    pub fn to_string(&self) -> (s: String)
        ensures
            s@ == crate::text::spec_decimal(self.0 as nat),
    {
        decimal(self.0 as u64)
    }
}

/// The contents of one 16-bit register.
#[derive(Debug, Clone, Copy, PartialEq, Eq, PartialOrd, Ord, Hash, Structural)]
pub struct RegisterValue(pub u16);

impl From<u16> for RegisterValue {
    fn from(value: u16) -> (r: Self)
        ensures
            r.0 == value,
    {
        RegisterValue(value)
    }
}

impl FromSpecImpl<u16> for RegisterValue {
    open spec fn obeys_from_spec() -> bool {
        true
    }

    open spec fn from_spec(v: u16) -> RegisterValue {
        RegisterValue(v)
    }
}

impl From<RegisterValue> for u16 {
    fn from(value: RegisterValue) -> (r: Self)
        ensures
            r == value.0,
    {
        value.0
    }
}

impl FromSpecImpl<RegisterValue> for u16 {
    open spec fn obeys_from_spec() -> bool {
        true
    }

    open spec fn from_spec(v: RegisterValue) -> u16 {
        v.0
    }
}

impl RegisterValue {
    /// The bare wrapped value in decimal, with no type name or punctuation.
    pub fn to_string(&self) -> (s: String)
        ensures
            s@ == crate::text::spec_decimal(self.0 as nat),
    {
        decimal(self.0 as u64)
    }
}

/// An AND or OR mask of Mask Write Register.
#[derive(Debug, Clone, Copy, PartialEq, Eq, PartialOrd, Ord, Hash, Structural)]
pub struct Mask(pub u16);

impl From<u16> for Mask {
    fn from(value: u16) -> (r: Self)
        ensures
            r.0 == value,
    {
        Mask(value)
    }
}

impl FromSpecImpl<u16> for Mask {
    open spec fn obeys_from_spec() -> bool {
        true
    }

    open spec fn from_spec(v: u16) -> Mask {
        Mask(v)
    }
}

impl From<Mask> for u16 {
    fn from(value: Mask) -> (r: Self)
        ensures
            r == value.0,
    {
        value.0
    }
}

impl FromSpecImpl<Mask> for u16 {
    open spec fn obeys_from_spec() -> bool {
        true
    }

    open spec fn from_spec(v: Mask) -> u16 {
        v.0
    }
}

impl Mask {
    /// The bare wrapped value in decimal, with no type name or punctuation.
    pub fn to_string(&self) -> (s: String)
        ensures
            s@ == crate::text::spec_decimal(self.0 as nat),
    {
        decimal(self.0 as u64)
    }
}

/// The file a record belongs to.
#[derive(Debug, Clone, Copy, PartialEq, Eq, PartialOrd, Ord, Hash, Structural)]
pub struct FileNumber(pub u16);

impl From<u16> for FileNumber {
    fn from(value: u16) -> (r: Self)
        ensures
            r.0 == value,
    {
        FileNumber(value)
    }
}

impl FromSpecImpl<u16> for FileNumber {
    open spec fn obeys_from_spec() -> bool {
        true
    }

    open spec fn from_spec(v: u16) -> FileNumber {
        FileNumber(v)
    }
}

impl From<FileNumber> for u16 {
    fn from(value: FileNumber) -> (r: Self)
        ensures
            r == value.0,
    {
        value.0
    }
}

impl FromSpecImpl<FileNumber> for u16 {
    open spec fn obeys_from_spec() -> bool {
        true
    }

    open spec fn from_spec(v: FileNumber) -> u16 {
        v.0
    }
}

impl FileNumber {
    /// The bare wrapped value in decimal, with no type name or punctuation.
    pub fn to_string(&self) -> (s: String)
        ensures
            s@ == crate::text::spec_decimal(self.0 as nat),
    {
        decimal(self.0 as u64)
    }
}

/// The record within a file.
#[derive(Debug, Clone, Copy, PartialEq, Eq, PartialOrd, Ord, Hash, Structural)]
pub struct RecordNumber(pub u16);

impl From<u16> for RecordNumber {
    fn from(value: u16) -> (r: Self)
        ensures
            r.0 == value,
    {
        RecordNumber(value)
    }
}

impl FromSpecImpl<u16> for RecordNumber {
    open spec fn obeys_from_spec() -> bool {
        true
    }

    open spec fn from_spec(v: u16) -> RecordNumber {
        RecordNumber(v)
    }
}

impl From<RecordNumber> for u16 {
    fn from(value: RecordNumber) -> (r: Self)
        ensures
            r == value.0,
    {
        value.0
    }
}

impl FromSpecImpl<RecordNumber> for u16 {
    open spec fn obeys_from_spec() -> bool {
        true
    }

    open spec fn from_spec(v: RecordNumber) -> u16 {
        v.0
    }
}

impl RecordNumber {
    /// The bare wrapped value in decimal, with no type name or punctuation.
    pub fn to_string(&self) -> (s: String)
        ensures
            s@ == crate::text::spec_decimal(self.0 as nat),
    {
        decimal(self.0 as u64)
    }
}

/// A record length, counted in registers.
#[derive(Debug, Clone, Copy, PartialEq, Eq, PartialOrd, Ord, Hash, Structural)]
pub struct RecordLength(pub u16);

impl From<u16> for RecordLength {
    fn from(value: u16) -> (r: Self)
        ensures
            r.0 == value,
    {
        RecordLength(value)
    }
}

impl FromSpecImpl<u16> for RecordLength {
    open spec fn obeys_from_spec() -> bool {
        true
    }

    open spec fn from_spec(v: u16) -> RecordLength {
        RecordLength(v)
    }
}

impl From<RecordLength> for u16 {
    fn from(value: RecordLength) -> (r: Self)
        ensures
            r == value.0,
    {
        value.0
    }
}

impl FromSpecImpl<RecordLength> for u16 {
    open spec fn obeys_from_spec() -> bool {
        true
    }

    open spec fn from_spec(v: RecordLength) -> u16 {
        v.0
    }
}

impl RecordLength {
    /// The bare wrapped value in decimal, with no type name or punctuation.
    pub fn to_string(&self) -> (s: String)
        ensures
            s@ == crate::text::spec_decimal(self.0 as nat),
    {
        decimal(self.0 as u64)
    }
}

/// The output status byte of Read Exception Status.
#[derive(Debug, Clone, Copy, PartialEq, Eq, PartialOrd, Ord, Hash, Structural)]
pub struct ExceptionStatus(pub u8);

impl From<u8> for ExceptionStatus {
    fn from(value: u8) -> (r: Self)
        ensures
            r.0 == value,
    {
        ExceptionStatus(value)
    }
}

impl FromSpecImpl<u8> for ExceptionStatus {
    open spec fn obeys_from_spec() -> bool {
        true
    }

    open spec fn from_spec(v: u8) -> ExceptionStatus {
        ExceptionStatus(v)
    }
}

impl From<ExceptionStatus> for u8 {
    fn from(value: ExceptionStatus) -> (r: Self)
        ensures
            r == value.0,
    {
        value.0
    }
}

impl FromSpecImpl<ExceptionStatus> for u8 {
    open spec fn obeys_from_spec() -> bool {
        true
    }

    open spec fn from_spec(v: ExceptionStatus) -> u8 {
        v.0
    }
}

impl ExceptionStatus {
    /// The bare wrapped value in decimal, with no type name or punctuation.
    pub fn to_string(&self) -> (s: String)
        ensures
            s@ == crate::text::spec_decimal(self.0 as nat),
    {
        decimal(self.0 as u64)
    }
}

} // verus!

//! Enumerations that the native library takes as integer codes.

use vstd::prelude::*;

verus! {

/// An enumeration of possible rotation values.
#[derive(Debug, Clone)]
pub enum Rotation {
    /// Non-rotated.
    On0,
    /// Rotated on 90 degrees clockwise.
    On90,
    /// Rotated on 180 degrees.
    On180,
    /// Rotated on 270 degrees clockwise.
    On270,
    /// Rotated on 360 degrees clockwise.
    On360,
}

impl Rotation {
    /// The integer by which the native library knows this rotation.
    pub open spec fn spec_code(&self) -> int {
        match self {
            Rotation::On0 => 0,
            Rotation::On90 => 1,
            Rotation::On180 => 2,
            Rotation::On270 => 3,
            Rotation::On360 => 4,
        }
    }

    /// The integer by which the native library knows this rotation.
    pub fn code(&self) -> (c: i32)
        ensures
            c == self.spec_code(),
    {
        match self {
            Rotation::On0 => 0,
            Rotation::On90 => 1,
            Rotation::On180 => 2,
            Rotation::On270 => 3,
            Rotation::On360 => 4,
        }
    }
}

/// An enumeration of possible page size values.
#[derive(Debug, Clone)]
pub enum PageSize {
    /// A0 size.
    A0,
    /// A1 size.
    A1,
    /// A2 size.
    A2,
    /// A3 size.
    A3,
    /// A4 size.
    A4,
    /// A5 size.
    A5,
    /// A6 size.
    A6,
    /// B5 size.
    B5,
    /// PageLetter size.
    PageLetter,
    /// PageLegal size.
    PageLegal,
    /// PageLedger size.
    PageLedger,
    /// P11x17 size.
    P11x17,
}

impl PageSize {
    /// The integer by which the native library knows this page size.
    pub open spec fn spec_code(&self) -> int {
        match self {
            PageSize::A0 => 0,
            PageSize::A1 => 1,
            PageSize::A2 => 2,
            PageSize::A3 => 3,
            PageSize::A4 => 4,
            PageSize::A5 => 5,
            PageSize::A6 => 6,
            PageSize::B5 => 7,
            PageSize::PageLetter => 8,
            PageSize::PageLegal => 9,
            PageSize::PageLedger => 10,
            PageSize::P11x17 => 11,
        }
    }

    /// The integer by which the native library knows this page size.
    pub fn code(&self) -> (c: i32)
        ensures
            c == self.spec_code(),
    {
        match self {
            PageSize::A0 => 0,
            PageSize::A1 => 1,
            PageSize::A2 => 2,
            PageSize::A3 => 3,
            PageSize::A4 => 4,
            PageSize::A5 => 5,
            PageSize::A6 => 6,
            PageSize::B5 => 7,
            PageSize::PageLetter => 8,
            PageSize::PageLegal => 9,
            PageSize::PageLedger => 10,
            PageSize::P11x17 => 11,
        }
    }
}

/// An enumeration of possible crypto algorithms.
#[derive(Debug, Clone, Copy)]
pub enum CryptoAlgorithm {
    /// RC4 with key length 40.
    RC4x40,
    /// RC4 with key length 128.
    RC4x128,
    /// AES with key length 128.
    AESx128,
    /// AES with key length 256.
    AESx256,
}

impl CryptoAlgorithm {
    /// The integer by which the native library knows this algorithm.
    pub open spec fn spec_code(&self) -> int {
        match self {
            CryptoAlgorithm::RC4x40 => 0,
            CryptoAlgorithm::RC4x128 => 1,
            CryptoAlgorithm::AESx128 => 2,
            CryptoAlgorithm::AESx256 => 3,
        }
    }

    /// The integer by which the native library knows this algorithm.
    pub fn code(&self) -> (c: i32)
        ensures
            c == self.spec_code(),
    {
        match self {
            CryptoAlgorithm::RC4x40 => 0,
            CryptoAlgorithm::RC4x128 => 1,
            CryptoAlgorithm::AESx128 => 2,
            CryptoAlgorithm::AESx256 => 3,
        }
    }
}

} // verus!

//! Requests about a product's images, and how database failures are
//! answered.
use vstd::prelude::*;
use crate::status::{ApiError, STATUS_INTERNAL_SERVER_ERROR, STATUS_NOT_FOUND};

verus! {

/// The resolutions in which a product image is stored.
#[derive(Clone, Copy, Debug, PartialEq, Eq, Structural)]
pub enum Rozdzielczosci {
    R16,
    R32,
    R64,
    R128,
    R256,
    R512,
    R1024,
    R2048,
}

impl Rozdzielczosci {
    /// The resolution in pixels.
    pub open spec fn pixels(&self) -> int {
        match self {
            Rozdzielczosci::R16 => 16,
            Rozdzielczosci::R32 => 32,
            Rozdzielczosci::R64 => 64,
            Rozdzielczosci::R128 => 128,
            Rozdzielczosci::R256 => 256,
            Rozdzielczosci::R512 => 512,
            Rozdzielczosci::R1024 => 1024,
            Rozdzielczosci::R2048 => 2048,
        }
    }

    pub fn value(&self) -> (r: i32)
        ensures
            r == self.pixels(),
    {
        match self {
            Rozdzielczosci::R16 => 16,
            Rozdzielczosci::R32 => 32,
            Rozdzielczosci::R64 => 64,
            Rozdzielczosci::R128 => 128,
            Rozdzielczosci::R256 => 256,
            Rozdzielczosci::R512 => 512,
            Rozdzielczosci::R1024 => 1024,
            Rozdzielczosci::R2048 => 2048,
        }
    }

    /// The resolution of so many pixels, if images are stored in it.
    pub fn from_value(v: i32) -> (r: Option<Rozdzielczosci>)
        ensures
            match r {
                Some(res) => res.pixels() == v,
                None => !(v == 16 || v == 32 || v == 64 || v == 128 || v == 256 || v == 512
                    || v == 1024 || v == 2048),
            },
    {
        match v {
            16 => Some(Rozdzielczosci::R16),
            32 => Some(Rozdzielczosci::R32),
            64 => Some(Rozdzielczosci::R64),
            128 => Some(Rozdzielczosci::R128),
            256 => Some(Rozdzielczosci::R256),
            512 => Some(Rozdzielczosci::R512),
            1024 => Some(Rozdzielczosci::R1024),
            2048 => Some(Rozdzielczosci::R2048),
            _ => None,
        }
    }
}

/// An image to add to a product: its resolution and where it is.
#[derive(Debug)]
pub struct AddImageRequest {
    pub resolution: Rozdzielczosci,
    pub path: String,
}

/// The answer to a failed database operation on a product: a missing row
/// is 404 "Product not found", anything else 500 with the database's
/// message.
pub fn product_db_error(row_not_found: bool, message: String) -> (r: ApiError)
    ensures
        row_not_found ==> r.status == STATUS_NOT_FOUND && r.message@ == "Product not found"@,
        !row_not_found ==> r.status == STATUS_INTERNAL_SERVER_ERROR && r.message@ == message@,
{
    if row_not_found {
        ApiError::new(STATUS_NOT_FOUND, "Product not found")
    } else {
        ApiError { status: STATUS_INTERNAL_SERVER_ERROR, message }
    }
}

} // verus!

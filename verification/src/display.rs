//! The one display of the device.

use crate::geometry::{whole_number_value, Bounds, Point, Scalar, Size};
use vstd::arithmetic::power2::{lemma2_to64, pow2};
use vstd::prelude::*;

verus! {

/// 412 logical pixels: the width of a display that has not been measured.
pub const DEFAULT_WIDTH_BITS: u32 = 0x43ce_0000;

/// 915 logical pixels: the height of a display that has not been measured.
pub const DEFAULT_HEIGHT_BITS: u32 = 0x4464_c000;

/// The display's number.
pub const DISPLAY_ID: u32 = 1;

/// A display, with an identity of its own for each run.
#[derive(Debug)]
pub struct AndroidDisplay {
    pub id: u32,
    /// The 128 bits of the identity, the first of them the most significant.
    pub uuid: u128,
    pub size: Size<Scalar>,
}

/// The bits of a random UUID: the version is 4, and the variant is the one that has the
/// two bits 10.
pub open spec fn is_random_uuid(bits: u128) -> bool {
    &&& (bits / 0x1000_0000_0000_0000_0000) % 16 == 4
    &&& (bits / 0x4000_0000_0000_0000) % 4 == 2
}

/// Calls `uuid::Uuid::new_v4` and hands out the bits of what it made. Which UUID comes
/// back is chance; whichever it is, its version and its variant are those of a random
/// one. The call panics where the system has no random bytes to give.
#[verifier::external_body]
fn random_uuid() -> (bits: u128)
    ensures
        is_random_uuid(bits),
{
    uuid::Uuid::new_v4().as_u128()
}

/// The size of a display that has not been measured.
pub open spec fn default_size() -> Size<Scalar> {
    Size {
        width: Scalar { bits: DEFAULT_WIDTH_BITS },
        height: Scalar { bits: DEFAULT_HEIGHT_BITS },
    }
}

impl AndroidDisplay {
    /// A display of the default size under a fresh identity.
    pub fn new() -> (display: AndroidDisplay)
        ensures
            display.id == DISPLAY_ID,
            is_random_uuid(display.uuid),
            display.size == default_size(),
    {
        AndroidDisplay::with_uuid(random_uuid())
    }

    /// A display of the default size under the given identity.
    pub fn with_uuid(uuid: u128) -> (display: AndroidDisplay)
        ensures
            display == (AndroidDisplay { id: DISPLAY_ID, uuid, size: default_size() }),
    {
        AndroidDisplay {
            id: DISPLAY_ID,
            uuid,
            size: Size {
                width: Scalar { bits: DEFAULT_WIDTH_BITS },
                height: Scalar { bits: DEFAULT_HEIGHT_BITS },
            },
        }
    }

    /// Takes up the measured size.
    pub fn set_size(&mut self, size: Size<Scalar>)
        ensures
            *final(self) == (AndroidDisplay { size, ..*old(self) }),
    {
        self.size = size;
    }

    pub fn id(&self) -> (id: u32)
        ensures
            id == self.id,
    {
        self.id
    }

    pub fn uuid(&self) -> (uuid: u128)
        ensures
            uuid == self.uuid,
    {
        self.uuid
    }

    /// The whole display, from the origin on.
    pub fn bounds(&self) -> (bounds: Bounds)
        ensures
            bounds == (Bounds { origin: Point::spec_origin(), size: self.size }),
    {
        Bounds { origin: Point::origin(), size: self.size }
    }
}

/// A display that has not been measured is 412 by 915 logical pixels.
pub proof fn default_size_value()
    ensures
        default_size().width.value() == 412 * pow2(149),
        default_size().height.value() == 915 * pow2(149),
{
    lemma2_to64();
    whole_number_value(default_size().width, 8, 412);
    whole_number_value(default_size().height, 9, 915);
}

/// There is one display, and its number is 1. A random UUID has 4 in the four bits of its
/// version and 10 in the two of its variant.
pub proof fn what_tells_the_display(bits: u128)
    ensures
        DISPLAY_ID == 1,
        is_random_uuid(bits) <==> (bits >> 76u128) & 0xf == 4 && (bits >> 62u128) & 3 == 2,
{
    assert((bits / 0x1000_0000_0000_0000_0000) % 16 == (bits >> 76u128) & 0xf) by (bit_vector);
    assert((bits / 0x4000_0000_0000_0000) % 4 == (bits >> 62u128) & 3) by (bit_vector);
}

} // verus!

//! The per-cycle driving logic around the renderer: what one polling cycle
//! does with the sensor's outcome, and a model of the physically visible
//! frame at the far end of the bus, so that the whole
//! poll → render → transfer round can be stated and exercised without
//! hardware.

use vstd::prelude::*;
use crate::raster::RASTER_HEIGHT;
use crate::raster::RASTER_WIDTH;
use crate::raster::raster_pixel;
use crate::reading::DisplayIOError;
use crate::reading::Reading;
use crate::reading::SensorError;
use crate::renderer::DisplayRenderer;
use crate::renderer::on_border;
use crate::renderer::packed_frame;
use crate::textfmt::format_reading;
use crate::textfmt::reading_text;

verus! {

/// What the visible frame is after one bus transfer: the transferred bytes
/// when the controller acknowledged, the previous frame untouched when it
/// did not.
pub open spec fn shown_after(shown: Seq<u8>, frame: Seq<u8>, ack: bool) -> Seq<u8> {
    if ack {
        frame
    } else {
        shown
    }
}

/// The frame a viewer of the physical display sees: a model of the display
/// controller's data RAM at the far end of the bus.  Tests observe it as a
/// mock bus sink; on the device itself the RAM sits behind the bus and only
/// acknowledged transfers reach it.
pub struct Screen {
    frame: Vec<u8>,
}

impl View for Screen {
    type V = Seq<u8>;

    closed spec fn view(&self) -> Seq<u8> {
        self.frame@
    }
}

impl Screen {
    /// A display that no frame has reached yet.
    pub fn new() -> (s: Screen)
        ensures
            s@ == Seq::<u8>::empty(),
    {
        Screen { frame: Vec::new() }
    }

    /// The bytes currently visible.
    pub fn shown(&self) -> (r: &Vec<u8>)
        ensures
            r@ == self@,
    {
        &self.frame
    }

    /// One bus transfer of a packed frame; `ack` says whether the controller
    /// acknowledged the transaction.  A failed transfer returns
    /// `DisplayIOError` and leaves the visible frame byte-identical to the
    /// last acknowledged one.
    pub fn receive(&mut self, frame: &Vec<u8>, ack: bool) -> (r: Result<(), DisplayIOError>)
        ensures
            final(self)@ == shown_after(old(self)@, frame@, ack),
            r is Ok <==> ack,
    {
        if ack {
            let mut copied: Vec<u8> = Vec::new();
            let mut k: usize = 0;
            while k < frame.len()
                invariant
                    k <= frame@.len(),
                    copied@.len() == k,
                    forall|j: int| 0 <= j < k ==> copied@[j] == frame@[j],
                decreases frame@.len() - k,
            {
                copied.push(frame[k]);
                k = k + 1;
            }
            proof {
                assert(copied@ =~= frame@);
            }
            self.frame = copied;
            Ok(())
        } else {
            Err(DisplayIOError)
        }
    }
}

/// Stale on failure: once a transfer of `f1` has been acknowledged, a failed
/// transfer of `f2` leaves the visible frame byte-identical to `f1`, however
/// far the in-memory buffer has moved on.
pub proof fn lemma_stale_on_failure(shown: Seq<u8>, f1: Seq<u8>, f2: Seq<u8>)
    ensures
        shown_after(shown_after(shown, f1, true), f2, false) == f1,
{
}

/// One polling cycle of the driver loop, up to the bus edge.
///
/// On a successful poll the refresh protocol runs in strict order — clear
/// (which re-draws the border at once), draw the message line, pack the
/// frame — and the packed frame to transfer is returned.  On a failed poll
/// the renderer is not touched at all and there is nothing to transfer, so
/// the buffer after this cycle is identical to the buffer after the last
/// one.
pub fn cycle(r: &mut DisplayRenderer, sensor: Result<Reading, SensorError>) -> (out: Option<
    Vec<u8>,
>)
    requires
        old(r)@.wf(),
        old(r)@.height % 8 == 0,
        sensor is Ok ==> sensor->Ok_0.wf(),
    ensures
        final(r)@.wf(),
        final(r)@.width == old(r)@.width,
        final(r)@.height == old(r)@.height,
        sensor is Err ==> final(r)@ == old(r)@ && out is None,
        sensor is Ok ==> {
            let text = reading_text(
                sensor->Ok_0.temp_tenths as int,
                sensor->Ok_0.humidity_tenths as int,
            );
            &&& out is Some
            &&& forall|x: int, y: int|
                final(r)@.in_bounds(x, y) ==> #[trigger] final(r)@.pixel(x, y) == (on_border(
                    final(r)@.width as int,
                    final(r)@.height as int,
                    x,
                    y,
                ) || (x < RASTER_WIDTH && y < RASTER_HEIGHT && raster_pixel(text, x, y)))
            &&& out->0@ == packed_frame(final(r)@)
        },
{
    match sensor {
        Ok(reading) => {
            let msg = format_reading(&reading);
            r.clear();
            proof {
                crate::renderer::lemma_border_after_clear(old(r)@);
            }
            r.draw_message(msg.as_str());
            let bytes = r.frame_bytes();
            Some(bytes)
        },
        Err(_) => None,
    }
}

} // verus!

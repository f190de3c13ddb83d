//! Staging a format change on a queue that has no buffers yet.
use vstd::prelude::*;

use crate::device::QueueType;
use crate::error::Error;
use crate::queue::{Queue, QueueInit};

verus! {

/// The format of the images of a queue.
#[derive(Debug, Clone, Copy, PartialEq, Eq, Structural)]
pub struct Format {
    pub width: u32,
    pub height: u32,
    /// Four-character code of the pixel format.
    pub pixelformat: u32,
}

/// A format being prepared for a queue, starting from its current one.
pub struct FormatBuilder {
    queue_type: QueueType,
    format: Format,
}

impl Queue<QueueInit> {
    /// A builder seeded with `current`, the format the device reported for
    /// this queue; the device's error is returned as it is.
    pub fn change_format(&self, current: Result<Format, Error>) -> (r: Result<FormatBuilder, Error>)
        ensures
            current is Err ==> r == Err::<FormatBuilder, Error>(current->Err_0),
            current is Ok ==> r is Ok && r->Ok_0.spec_format() == current->Ok_0
                && r->Ok_0.spec_queue_type() == self.spec_type(),
    {
        match current {
            Ok(format) => Ok(FormatBuilder { queue_type: self.get_type(), format }),
            Err(e) => Err(e),
        }
    }
}

impl FormatBuilder {
    pub closed spec fn spec_format(&self) -> Format {
        self.format
    }

    pub closed spec fn spec_queue_type(&self) -> QueueType {
        self.queue_type
    }

    /// The format built so far.
    pub fn format(&self) -> (r: &Format)
        ensures
            *r == self.spec_format(),
    {
        &self.format
    }

    /// The type of the queue the format is for.
    pub fn queue_type(&self) -> (r: QueueType)
        ensures
            r == self.spec_queue_type(),
    {
        self.queue_type
    }

    /// Sets the size of the images (each dimension taken modulo 2^32).
    pub fn set_size(self, width: usize, height: usize) -> (r: Self)
        ensures
            r.spec_format() == (Format { width: width as u32, height: height as u32, ..self.spec_format() }),
            r.spec_queue_type() == self.spec_queue_type(),
    {
        let mut b = self;
        b.format.width = width as u32;
        b.format.height = height as u32;
        b
    }

    /// Sets the pixel format.
    pub fn set_pixelformat(self, pixel_format: u32) -> (r: Self)
        ensures
            r.spec_format() == (Format { pixelformat: pixel_format, ..self.spec_format() }),
            r.spec_queue_type() == self.spec_queue_type(),
    {
        let mut b = self;
        b.format.pixelformat = pixel_format;
        b
    }

    /// Takes the device's answer to a dry run of the format built so far: on
    /// success the staged format becomes the one the device would choose; on
    /// error it is kept and the error returned.
    pub fn try_apply(&mut self, adjusted: Result<Format, Error>) -> (r: Result<(), Error>)
        ensures
            final(self).spec_queue_type() == old(self).spec_queue_type(),
            adjusted is Err ==> r == Err::<(), Error>(adjusted->Err_0)
                && final(self).spec_format() == old(self).spec_format(),
            adjusted is Ok ==> r == Ok::<(), Error>(()) && final(self).spec_format() == adjusted->Ok_0,
    {
        match adjusted {
            Ok(format) => {
                self.format = format;
                Ok(())
            },
            Err(e) => Err(e),
        }
    }
}

} // verus!

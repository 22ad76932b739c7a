//! The writer that every call site shares: it is made on first use, and
//! each action runs on it with no one else at the display.

use crate::buffer::Buffer;
use crate::color::{packed, Color, ColorCode};
use crate::model::WriterView;
use crate::writer::Writer;
use core::fmt::Write;
use vstd::prelude::*;
use vstd::string::StringSliceAdditionalSpecFns;

verus! {

/// The colors of the shared writer: yellow on black.
pub open spec fn spec_default_color_code() -> ColorCode {
    ColorCode(0x0e)
}

/// The colors of the shared writer: yellow on black.
#[verifier::when_used_as_spec(spec_default_color_code)]
pub fn default_color_code() -> (color_code: ColorCode)
    ensures
        color_code == spec_default_color_code(),
        color_code.0 == packed(Color::Yellow.code(), Color::Black.code()),
{
    ColorCode::new(Color::Yellow, Color::Black)
}

/// The place of the one writer that all call sites share. It starts with
/// the display region alone; the writer is made when it is first asked for,
/// and from then on it is the same writer for every caller.
pub struct SharedWriter<'a> {
    region: Option<&'a mut Buffer>,
    writer: Option<Writer<'a>>,
    initializations: Ghost<nat>,
}

impl<'a> View for SharedWriter<'a> {
    type V = WriterView;

    /// The writer as the next action finds it: the writer that is there,
    /// or else a new one at the left of the bottom row, in the default
    /// colors, on the display as it is.
    closed spec fn view(&self) -> WriterView {
        match self.writer {
            Some(writer) => writer@,
            None => WriterView {
                column: 0,
                color_code: default_color_code(),
                screen: match self.region {
                    Some(region) => region@,
                    None => Seq::empty(),
                },
            },
        }
    }
}

impl<'a> SharedWriter<'a> {
    /// Either the region waits for the writer to be made, or the writer is
    /// there and holds it; and the writer was made as often as it is there.
    pub closed spec fn wf(&self) -> bool {
        &&& self.region is Some <==> self.writer is None
        &&& self.initializations@ == (if self.writer is Some {
            1nat
        } else {
            0nat
        })
        &&& self@.wf()
    }

    /// The writer has been made.
    pub closed spec fn spec_is_initialized(&self) -> bool {
        self.writer is Some
    }

    /// Whether the writer has been made.
    #[verifier::when_used_as_spec(spec_is_initialized)]
    pub fn is_initialized(&self) -> (made: bool)
        ensures
            made == self.spec_is_initialized(),
    {
        self.writer.is_some()
    }

    /// How often the writer has been made.
    pub closed spec fn initializations(&self) -> nat {
        self.initializations@
    }

    /// The place of a writer on `region`. The writer is not made yet.
    pub fn new(region: &'a mut Buffer) -> (shared: Self)
        ensures
            shared.wf(),
            !shared.is_initialized(),
            shared.initializations() == 0,
            shared@ == (WriterView {
                column: 0,
                color_code: default_color_code(),
                screen: old(region)@,
            }),
    {
        SharedWriter { region: Some(region), writer: None, initializations: Ghost(0) }
    }

    /// The writer is made once at most: never while no one has asked for
    /// it, and once when it is there, however often it was asked for. And
    /// the writer that the next action finds is well-formed.
    pub proof fn lemma_made_once(&self)
        requires
            self.wf(),
        ensures
            self.initializations() == (if self.is_initialized() {
                1nat
            } else {
                0nat
            }),
            self@.wf(),
    {
    }
}

/// Runs `f` on the shared writer and returns what `f` returns. The writer
/// is made first if this is the first call; on every later call `f` finds
/// the writer as the action before it left it.
///
/// The caller hands over the place of the writer for the length of the
/// call, so nothing else prints meanwhile. Where an interrupt handler
/// prints too, the caller turns interrupts off around the call.
///
/// The last clause reads: `f` was called on a reference to a writer that
/// was the shared writer as it stood before, `result` is what that call
/// returned, and the shared writer is now what the call left behind.
pub fn with_writer<'a, F, R>(shared: &mut SharedWriter<'a>, f: F) -> (result: R) where
    F: FnOnce(&mut Writer<'a>) -> R,

    requires
        old(shared).wf(),
        forall|writer: &mut Writer<'a>|
            writer@ == old(shared)@ && writer@.wf() ==> call_requires(f, (writer,)),
    ensures
        final(shared).wf(),
        final(shared).is_initialized(),
        final(shared).initializations() == 1,
        old(shared).is_initialized() ==> old(shared).initializations() == 1,
        exists|writer: &mut Writer<'a>|
            writer@ == old(shared)@ && final(writer)@ == final(shared)@ && call_ensures(
                f,
                (writer,),
                result,
            ),
{
    if shared.writer.is_none() {
        let region = shared.region.take().unwrap();
        shared.writer = Some(Writer::new(region, default_color_code()));
        shared.initializations = Ghost(shared.initializations@ + 1);
    }
    let writer = shared.writer.as_mut().unwrap();
    let result = f(writer);
    proof {
        use_type_invariant(&*writer);
    }
    result
}

/// The bytes of the line that the example prints.
pub open spec fn example_text() -> Seq<u8> {
    "The numbers are 54 and 0.3333333333333333".spec_bytes()
}

/// Prints a line of text with two numbers in it on the shared writer.
pub fn example_global_writer(shared: &mut SharedWriter<'_>)
    requires
        old(shared).wf(),
    ensures
        final(shared).wf(),
        final(shared).is_initialized(),
        final(shared).initializations() == 1,
        final(shared)@ == old(shared)@.write_string(example_text()),
{
    let print = |writer: &mut Writer|
        ensures
            final(writer)@ == old(writer)@.write_string(example_text()),
        {
            // Perform write operations using the writer
            writer.write_str("The numbers are 54 and 0.3333333333333333").unwrap();
        };
    with_writer(shared, print);
}

} // verus!

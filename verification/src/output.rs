//! The two shapes of the output and the value that carries one of them.

use vstd::prelude::*;

verus! {

/// The shape in which a decoded sector is shown: the tag of an [`Output`].
#[derive(Clone, Copy, Debug, PartialEq, Eq, Structural)]
pub enum Shape {
    /// The sector as it was decoded.
    FileSector,
    /// The faces that the sector was converted into.
    RenderableSector,
}

/// The shape that the renderables flag selects.
pub open spec fn shape_for(to_renderables: bool) -> Shape {
    if to_renderables {
        Shape::RenderableSector
    } else {
        Shape::FileSector
    }
}

impl Shape {
    /// The name under which an encoder writes this tag.
    pub open spec fn spec_name(self) -> Seq<char> {
        match self {
            Shape::FileSector => "FileSector"@,
            Shape::RenderableSector => "RenderableSector"@,
        }
    }

    /// The position of this tag among the tags, counted from zero.
    pub open spec fn spec_index(self) -> u32 {
        match self {
            Shape::FileSector => 0u32,
            Shape::RenderableSector => 1u32,
        }
    }

    /// The name under which an encoder writes this tag.
    pub fn name(self) -> (name: &'static str)
        ensures
            name@ == self.spec_name(),
    {
        match self {
            Shape::FileSector => "FileSector",
            Shape::RenderableSector => "RenderableSector",
        }
    }

    /// The position of this tag among the tags, counted from zero.
    pub fn index(self) -> (index: u32)
        ensures
            index == self.spec_index(),
    {
        match self {
            Shape::FileSector => 0,
            Shape::RenderableSector => 1,
        }
    }
}

/// Two tags are written under the same name only if they are the same tag, so
/// the tag can be told from the name that was written.
pub proof fn lemma_name_identifies_shape(a: Shape, b: Shape)
    ensures
        a.spec_name() == b.spec_name() <==> a == b,
        a.spec_index() == b.spec_index() <==> a == b,
{
    reveal_strlit("FileSector");
    reveal_strlit("RenderableSector");
    assert(Shape::FileSector.spec_name().len() == 10);
    assert(Shape::RenderableSector.spec_name().len() == 16);
}

/// What a run writes: a decoded sector of type `S`, or the faces of type `F`
/// it was converted into.
#[derive(Debug)]
pub enum Output<S, F> {
    /// The sector as it was decoded.
    FileSector(S),
    /// The faces that the sector was converted into, in the converter's order.
    RenderableSector(Vec<F>),
}

impl<S, F> Output<S, F> {
    /// The tag of this value.
    pub open spec fn spec_shape(&self) -> Shape {
        match self {
            Output::FileSector(_) => Shape::FileSector,
            Output::RenderableSector(_) => Shape::RenderableSector,
        }
    }

    /// The tag of this value.
    pub fn shape(&self) -> (shape: Shape)
        ensures
            shape == self.spec_shape(),
    {
        match self {
            Output::FileSector(_) => Shape::FileSector,
            Output::RenderableSector(_) => Shape::RenderableSector,
        }
    }

    /// Wraps `sector` in the shape asked for. For [`Shape::FileSector`] the
    /// sector is wrapped as it is and `convert` is not called. For
    /// [`Shape::RenderableSector`] `convert` is called once on the sector and
    /// what it returns is the payload, unchanged.
    pub fn select<C>(sector: S, shape: Shape, convert: C) -> (output: Self) where
        C: FnOnce(&S) -> Vec<F>,

        requires
            shape == Shape::RenderableSector ==> call_requires(convert, (&sector,)),
        ensures
            output.spec_shape() == shape,
            shape == Shape::FileSector ==> output == Output::<S, F>::FileSector(sector),
            shape == Shape::RenderableSector ==> (output matches Output::RenderableSector(faces)
                && call_ensures(convert, (&sector,), faces)),
    {
        match shape {
            Shape::FileSector => Output::FileSector(sector),
            Shape::RenderableSector => {
                let faces = convert(&sector);
                Output::RenderableSector(faces)
            },
        }
    }
}

} // verus!

//! The values the shader compiler hands the viewer for each image declared in
//! the script, and the owned error raised when a reload cannot produce them.

use vstd::prelude::*;
use crate::uniforms::Uniform;

verus! {

/// The generated fragment-shader source for one image of the script.
#[derive(Debug, Clone)]
pub struct ImageSource(pub String);

impl View for ImageSource {
    type V = Seq<char>;

    open spec fn view(&self) -> Seq<char> {
        self.0@
    }
}

impl ImageSource {
    /// An owned copy with the same text.
    pub fn duplicate(&self) -> (r: ImageSource)
        ensures
            r@ == self@,
    {
        ImageSource(self.0.clone())
    }
}

/// The mathematical view of an image descriptor.
pub ghost struct ImageModel {
    pub source: Seq<char>,
    pub uniforms: Seq<Uniform>,
}

/// One renderable unit produced by analysing the script: the generated
/// shader source and the ordered uniform kinds it requires.
#[derive(Debug)]
pub struct ImageDescriptor {
    pub source: ImageSource,
    pub uniforms: Vec<Uniform>,
}

impl View for ImageDescriptor {
    type V = ImageModel;

    open spec fn view(&self) -> ImageModel {
        ImageModel { source: self.source@, uniforms: self.uniforms@ }
    }
}

/// The views of a whole descriptor list.
pub open spec fn images_model(s: Seq<ImageDescriptor>) -> Seq<ImageModel> {
    s.map_values(|d: ImageDescriptor| d@)
}

/// Why a reload produced no image descriptors. Each variant carries an owned
/// diagnostic text, so the error does not borrow the script buffer.
#[derive(Debug, Clone, PartialEq, Eq)]
pub enum ScriptError {
    /// The script file could not be read.
    Io(String),
    /// The script text did not parse.
    Parse(String),
    /// The script parsed but failed semantic analysis.
    Analyse(String),
}

} // verus!

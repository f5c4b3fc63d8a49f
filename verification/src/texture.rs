use crate::glenum::gl_clamp_to_border;
use crate::glenum::gl_clamp_to_edge;
use crate::glenum::gl_linear;
use crate::glenum::gl_linear_mipmap_linear;
use crate::glenum::gl_mirrored_repeat;
use crate::glenum::gl_nearest;
use crate::glenum::gl_nearest_mipmap_linear;
use crate::glenum::gl_repeat;
use vstd::prelude::*;

verus! {

/// What a texture shows outside its own area. `S` is the number type of a
/// colour channel.
#[derive(Copy, Debug, PartialEq)]
pub enum TexWrapping<S> {
    Repeat,
    MirrorRepeat,
    ClampEdge,
    /// One colour everywhere outside: red, green, blue, alpha.
    Constant((S, S, S, S)),
}

impl<S: Copy> Clone for TexWrapping<S> {
    fn clone(&self) -> (copy: Self)
        ensures
            copy == *self,
    {
        *self
    }
}

/// How a texture is sampled between its pixels.
#[derive(Clone, Copy, Debug, PartialEq, Eq, Structural)]
pub enum TexFiltering {
    Linear,
    Nearest,
}

/// How a texture is wrapped and sampled.
#[derive(Copy, Debug, PartialEq)]
pub struct TextureParams<S> {
    pub wrapping: TexWrapping<S>,
    pub filtering: TexFiltering,
}

impl<S: Copy> Clone for TextureParams<S> {
    fn clone(&self) -> (copy: Self)
        ensures
            copy == *self,
    {
        *self
    }
}

impl<S> TexWrapping<S> {
    /// The OpenGL wrap mode, used for both directions of the texture.
    pub open spec fn gl_wrap(self) -> u32 {
        match self {
            TexWrapping::Repeat => 0x2901,
            TexWrapping::MirrorRepeat => 0x8370,
            TexWrapping::ClampEdge => 0x812F,
            TexWrapping::Constant(_) => 0x812D,
        }
    }

    /// The colour to set as the texture's border colour: only where the
    /// wrapping is a constant colour.
    pub open spec fn gl_border_color(self) -> Option<(S, S, S, S)> {
        match self {
            TexWrapping::Constant(c) => Some(c),
            _ => None,
        }
    }
}

impl<S: Copy> TexWrapping<S> {
    /// The OpenGL wrap mode, used for both directions of the texture.
    pub fn to_gl_wrap(&self) -> (e: u32)
        ensures
            e == self.gl_wrap(),
    {
        match self {
            TexWrapping::Repeat => gl_repeat(),
            TexWrapping::MirrorRepeat => gl_mirrored_repeat(),
            TexWrapping::ClampEdge => gl_clamp_to_edge(),
            TexWrapping::Constant(_) => gl_clamp_to_border(),
        }
    }

    /// The colour to set as the texture's border colour, if any.
    pub fn border_color(&self) -> (c: Option<(S, S, S, S)>)
        ensures
            c == self.gl_border_color(),
    {
        match self {
            TexWrapping::Constant(c) => Some(*c),
            _ => None,
        }
    }
}

impl TexFiltering {
    /// The OpenGL filter for a texture shown smaller than it is: between
    /// mipmap levels it is always linear.
    pub open spec fn gl_min_filter(self) -> u32 {
        match self {
            TexFiltering::Linear => 0x2703,
            TexFiltering::Nearest => 0x2702,
        }
    }

    /// The OpenGL filter for a texture shown larger than it is.
    pub open spec fn gl_mag_filter(self) -> u32 {
        match self {
            TexFiltering::Linear => 0x2601,
            TexFiltering::Nearest => 0x2600,
        }
    }

    /// The OpenGL filter for a texture shown smaller than it is.
    pub fn to_gl_min_filter(&self) -> (e: u32)
        ensures
            e == self.gl_min_filter(),
    {
        match self {
            TexFiltering::Linear => gl_linear_mipmap_linear(),
            TexFiltering::Nearest => gl_nearest_mipmap_linear(),
        }
    }

    /// The OpenGL filter for a texture shown larger than it is.
    pub fn to_gl_mag_filter(&self) -> (e: u32)
        ensures
            e == self.gl_mag_filter(),
    {
        match self {
            TexFiltering::Linear => gl_linear(),
            TexFiltering::Nearest => gl_nearest(),
        }
    }
}

/// The three OpenGL parameters that [`TextureParams`] come down to, and
/// the border colour where there is one.
#[derive(Copy, Debug, PartialEq)]
pub struct GlTextureParams<S> {
    pub wrap: u32,
    pub border_color: Option<(S, S, S, S)>,
    pub min_filter: u32,
    pub mag_filter: u32,
}

impl<S: Copy> Clone for GlTextureParams<S> {
    fn clone(&self) -> (copy: Self)
        ensures
            copy == *self,
    {
        *self
    }
}

impl<S: Copy> TextureParams<S> {
    /// Wrapping that repeats, filtering that is linear.
    pub fn default_params() -> (params: Self)
        ensures
            params == (TextureParams {
                wrapping: TexWrapping::<S>::Repeat,
                filtering: TexFiltering::Linear,
            }),
    {
        TextureParams { wrapping: TexWrapping::Repeat, filtering: TexFiltering::Linear }
    }

    /// What to set on the bound texture for these parameters.
    pub fn set(&self) -> (gl: GlTextureParams<S>)
        ensures
            gl == (GlTextureParams {
                wrap: self.wrapping.gl_wrap(),
                border_color: self.wrapping.gl_border_color(),
                min_filter: self.filtering.gl_min_filter(),
                mag_filter: self.filtering.gl_mag_filter(),
            }),
    {
        GlTextureParams {
            wrap: self.wrapping.to_gl_wrap(),
            border_color: self.wrapping.border_color(),
            min_filter: self.filtering.to_gl_min_filter(),
            mag_filter: self.filtering.to_gl_mag_filter(),
        }
    }
}

} // verus!

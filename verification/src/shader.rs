//! The shader program that draws the points, and the handles of its inputs.

use vstd::prelude::*;

verus! {

/// Source of the vertex shader: places each point with the projection and
/// view matrices, forwards its colour and sets its size.
pub const POINTS_VERTEX_SRC: &'static str = "#version 100
    precision mediump float;
    attribute vec3 position;
    attribute vec3 color;
    attribute float size;
    varying   vec3 Color;
    uniform   mat4 proj;
    uniform   mat4 view;
    void main() {
        gl_Position = proj * view * vec4(position, 1.0);
        gl_PointSize = size;
        Color = color;
    }";

/// Source of the fragment shader: paints the forwarded colour, fully opaque.
pub const POINTS_FRAGMENT_SRC: &'static str = "#version 100
#ifdef GL_FRAGMENT_PRECISION_HIGH
   precision highp float;
#else
   precision mediump float;
#endif

    varying vec3 Color;
    void main() {
        gl_FragColor = vec4(Color, 1.0);
    }";

/// The named inputs of the shader program, in the order in which their
/// handles are resolved.
#[derive(Clone, Copy, Debug, PartialEq, Eq, Structural)]
pub enum ShaderInput {
    /// The attribute `position`.
    Position,
    /// The attribute `color`.
    Color,
    /// The attribute `size`.
    Size,
    /// The uniform `proj`.
    Projection,
    /// The uniform `view`.
    View,
}

impl ShaderInput {
    /// The name of the input in the shader source.
    pub open spec fn spec_name(self) -> Seq<char> {
        match self {
            ShaderInput::Position => "position"@,
            ShaderInput::Color => "color"@,
            ShaderInput::Size => "size"@,
            ShaderInput::Projection => "proj"@,
            ShaderInput::View => "view"@,
        }
    }

    /// Whether the input is a uniform; the others are per-vertex attributes.
    pub open spec fn spec_is_uniform(self) -> bool {
        self == ShaderInput::Projection || self == ShaderInput::View
    }

    /// The name of the input in the shader source.
    pub fn name(self) -> (name: &'static str)
        ensures
            name@ == self.spec_name(),
    {
        match self {
            ShaderInput::Position => "position",
            ShaderInput::Color => "color",
            ShaderInput::Size => "size",
            ShaderInput::Projection => "proj",
            ShaderInput::View => "view",
        }
    }

    /// Whether the input is a uniform; the others are per-vertex attributes.
    #[verifier::when_used_as_spec(spec_is_uniform)]
    pub fn is_uniform(self) -> (uniform: bool)
        ensures
            uniform == self.spec_is_uniform(),
    {
        match self {
            ShaderInput::Projection | ShaderInput::View => true,
            _ => false,
        }
    }
}

/// The handle of a per-vertex attribute of the compiled program.
#[derive(Clone, Copy, Debug, PartialEq, Eq, Structural)]
pub struct AttributeHandle(pub u32);

/// The handle of a uniform of the compiled program.
#[derive(Clone, Copy, Debug, PartialEq, Eq, Structural)]
pub struct UniformHandle(pub u32);

/// What the compiled program answered when asked for each named input:
/// `None` where it has no input of that name.
#[derive(Clone, Copy, Debug, PartialEq, Eq, Structural)]
pub struct HandleLookup {
    pub position: Option<AttributeHandle>,
    pub color: Option<AttributeHandle>,
    pub size: Option<AttributeHandle>,
    pub proj: Option<UniformHandle>,
    pub view: Option<UniformHandle>,
}

/// Why the handles could not be resolved.
#[derive(Clone, Copy, Debug, PartialEq, Eq, Structural)]
pub enum ShaderError {
    /// The compiled program has no input of this name.
    MissingInput(ShaderInput),
}

/// The handles of the five inputs, resolved once and never changed.
#[derive(Clone, Copy, Debug, PartialEq, Eq, Structural)]
pub struct ShaderBindings {
    pub position: AttributeHandle,
    pub color: AttributeHandle,
    pub size: AttributeHandle,
    pub proj: UniformHandle,
    pub view: UniformHandle,
}

impl HandleLookup {
    /// The first input, in resolution order, that the program lacks.
    pub open spec fn first_missing(self) -> Option<ShaderInput> {
        if self.position is None {
            Some(ShaderInput::Position)
        } else if self.color is None {
            Some(ShaderInput::Color)
        } else if self.size is None {
            Some(ShaderInput::Size)
        } else if self.proj is None {
            Some(ShaderInput::Projection)
        } else if self.view is None {
            Some(ShaderInput::View)
        } else {
            None
        }
    }
}

impl ShaderBindings {
    /// What resolving `lookup` gives: the five handles where the program has
    /// every input, else the first input that it lacks.
    pub open spec fn spec_resolve(lookup: HandleLookup) -> Result<ShaderBindings, ShaderError> {
        match lookup.first_missing() {
            Some(input) => Err(ShaderError::MissingInput(input)),
            None => Ok(
                ShaderBindings {
                    position: lookup.position->0,
                    color: lookup.color->0,
                    size: lookup.size->0,
                    proj: lookup.proj->0,
                    view: lookup.view->0,
                },
            ),
        }
    }

    /// Resolves the handles of the five inputs. Succeeds exactly when the
    /// program has all of them; otherwise names the first that it lacks.
    pub fn resolve(lookup: HandleLookup) -> (resolved: Result<ShaderBindings, ShaderError>)
        ensures
            resolved == Self::spec_resolve(lookup),
    {
        let position = match lookup.position {
            Some(handle) => handle,
            None => return Err(ShaderError::MissingInput(ShaderInput::Position)),
        };
        let color = match lookup.color {
            Some(handle) => handle,
            None => return Err(ShaderError::MissingInput(ShaderInput::Color)),
        };
        let size = match lookup.size {
            Some(handle) => handle,
            None => return Err(ShaderError::MissingInput(ShaderInput::Size)),
        };
        let proj = match lookup.proj {
            Some(handle) => handle,
            None => return Err(ShaderError::MissingInput(ShaderInput::Projection)),
        };
        let view = match lookup.view {
            Some(handle) => handle,
            None => return Err(ShaderError::MissingInput(ShaderInput::View)),
        };
        Ok(ShaderBindings { position, color, size, proj, view })
    }
}

} // verus!

//! What one frame shows: the clear values, the light, the chain of
//! transforms that places the model before the camera, the projection and
//! the state of the rasteriser.

use vstd::prelude::*;
use crate::transform::{Axis, Perspective, Transform};
use crate::units::{milli, vec3, Angle, Color, Milli, Vec3};

verus! {

/// When a fragment passes the depth test, by how its depth compares with the
/// depth already stored.
#[derive(Clone, Copy, Debug, PartialEq, Eq, Structural)]
pub enum DepthTest {
    /// Never.
    Ignore,
    /// Always.
    Overwrite,
    /// Where it is as near as what is stored.
    Equal,
    /// Where it is nearer or farther than what is stored.
    NotEqual,
    /// Where it is farther than what is stored.
    More,
    /// Where it is farther or as far.
    MoreOrEqual,
    /// Where it is nearer than what is stored.
    Less,
    /// Where it is nearer or as near.
    LessOrEqual,
}

/// Which triangles are dropped for facing away, by the winding of their
/// vertices on screen.
#[derive(Clone, Copy, Debug, PartialEq, Eq, Structural)]
pub enum CullFace {
    /// None: both sides are drawn.
    Neither,
    /// Those whose vertices run clockwise.
    Clockwise,
    /// Those whose vertices run counter-clockwise.
    CounterClockwise,
}

/// The state of the rasteriser for a draw.
#[derive(Clone, Copy, Debug, PartialEq, Eq, Structural)]
pub struct DrawParameters {
    pub depth_test: DepthTest,
    pub depth_write: bool,
    pub cull_face: CullFace,
}

/// Everything that one frame hands to the GPU, but for the projection, which
/// waits for the extent of the framebuffer. A frame clears both buffers and
/// then issues exactly one indexed draw of the mesh.
#[derive(Clone, Debug)]
pub struct Frame {
    /// The colour the colour buffer is cleared to.
    pub clear_color: Color,
    /// The depth the depth buffer is cleared to.
    pub clear_depth: Milli,
    /// The direction of the light, in view space.
    pub light: Vec3,
    /// The transforms whose product, taken in this order, is the model-view
    /// matrix: the last one is the first to act on a vertex.
    pub model_view: Vec<Transform>,
    /// The state of the rasteriser for the draw.
    pub parameters: DrawParameters,
}

/// The colour behind the model: a medium blue, opaque.
pub open spec fn background() -> Color {
    Color { red: milli(0), green: milli(400), blue: milli(700), alpha: milli(1000) }
}

/// The depth of an empty frame: the far end of the depth range.
pub open spec fn farthest_depth() -> Milli {
    milli(1000)
}

/// The direction of the light, the same on every frame.
pub open spec fn light_direction() -> Vec3 {
    vec3(-900, 1000, -200)
}

/// Nearer fragments win and are recorded; triangles that wind clockwise are
/// dropped as back faces.
pub open spec fn solid_parameters() -> DrawParameters {
    DrawParameters { depth_test: DepthTest::Less, depth_write: true, cull_face: CullFace::Clockwise }
}

/// The chain of transforms for a model turned by `angle`: the camera stands
/// at (0, 0, -2) and looks along +z with +y up; before it the model is
/// shifted by 0.8 along z, shrunk to 0.008 of its size and, first of all,
/// turned about the z axis.
pub open spec fn model_view_of(angle: Angle) -> Seq<Transform> {
    seq![
        Transform::View {
            position: vec3(0, 0, -2000),
            direction: vec3(0, 0, 2000),
            up: vec3(0, 1000, 0),
        },
        Transform::Translation { x: milli(0), y: milli(0), z: milli(800) },
        Transform::Scale { factor: milli(8) },
        Transform::Rotation { axis: Axis::Z, angle },
    ]
}

/// The projection onto a framebuffer of the given extent: a field of view of
/// a sixth of a turn, depths from 0.1 to 1024, and the aspect ratio
/// `height / width`.
pub open spec fn perspective_of(width: u32, height: u32) -> Perspective {
    Perspective {
        aspect_height: height,
        aspect_width: width,
        fov: Angle { numer: 1, denom: 6 },
        z_near: milli(100),
        z_far: milli(1_024_000),
    }
}

impl Frame {
    /// The frame is the one that shows the model turned by `angle`.
    pub open spec fn shows(&self, angle: Angle) -> bool {
        &&& self.clear_color == background()
        &&& self.clear_depth == farthest_depth()
        &&& self.light == light_direction()
        &&& self.model_view@ == model_view_of(angle)
        &&& self.parameters == solid_parameters()
    }
}

/// The frame that shows the model turned by `angle`.
pub fn compose(angle: Angle) -> (frame: Frame)
    ensures
        frame.shows(angle),
{
    let view = Transform::View {
        position: Vec3 {
            x: Milli { thousandths: 0 },
            y: Milli { thousandths: 0 },
            z: Milli { thousandths: -2000 },
        },
        direction: Vec3 {
            x: Milli { thousandths: 0 },
            y: Milli { thousandths: 0 },
            z: Milli { thousandths: 2000 },
        },
        up: Vec3 {
            x: Milli { thousandths: 0 },
            y: Milli { thousandths: 1000 },
            z: Milli { thousandths: 0 },
        },
    };
    let translation = Transform::Translation {
        x: Milli { thousandths: 0 },
        y: Milli { thousandths: 0 },
        z: Milli { thousandths: 800 },
    };
    let scale = Transform::Scale { factor: Milli { thousandths: 8 } };
    let rotation = Transform::Rotation { axis: Axis::Z, angle };
    let mut model_view: Vec<Transform> = Vec::new();
    model_view.push(view);
    model_view.push(translation);
    model_view.push(scale);
    model_view.push(rotation);
    assert(model_view@ =~= model_view_of(angle));
    Frame {
        clear_color: Color {
            red: Milli { thousandths: 0 },
            green: Milli { thousandths: 400 },
            blue: Milli { thousandths: 700 },
            alpha: Milli { thousandths: 1000 },
        },
        clear_depth: Milli { thousandths: 1000 },
        light: Vec3 {
            x: Milli { thousandths: -900 },
            y: Milli { thousandths: 1000 },
            z: Milli { thousandths: -200 },
        },
        model_view,
        parameters: DrawParameters {
            depth_test: DepthTest::Less,
            depth_write: true,
            cull_face: CullFace::Clockwise,
        },
    }
}

/// The projection onto a framebuffer `width` pixels wide and `height` pixels
/// high. On a square framebuffer the two extents of the aspect ratio are
/// equal, so the ratio is one.
pub fn perspective(width: u32, height: u32) -> (projection: Perspective)
    ensures
        projection == perspective_of(width, height),
        width == height ==> projection.aspect_height == projection.aspect_width,
{
    Perspective {
        aspect_height: height,
        aspect_width: width,
        fov: Angle { numer: 1, denom: 6 },
        z_near: Milli { thousandths: 100 },
        z_far: Milli { thousandths: 1_024_000 },
    }
}

} // verus!

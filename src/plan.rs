use vstd::prelude::*;

verus! {

/// The ways the harness can draw its one object.
#[derive(Debug, Clone, Copy, PartialEq, Eq, Structural)]
pub enum RenderMode {
    /// A coloured triangle that slides along the x axis with time.
    AnimatedTriangle,
    /// An indexed mesh under a fixed uniform scale.
    StaticMesh,
    /// An indexed mesh with per-vertex normals, shaded by a fixed light.
    LitMesh,
}

/// How one frame of a mode is cleared and drawn.
#[derive(Debug, Clone, Copy, PartialEq, Eq, Structural)]
pub struct DrawPlan {
    /// Depth testing (nearer wins) with depth writes.
    pub depth_test: bool,
    /// The depth buffer is cleared with the colour buffer.
    pub clear_depth: bool,
    /// The draw goes through an index buffer.
    pub indexed: bool,
    /// A normal buffer is bound beside the positions.
    pub normals: bool,
    /// A light direction is handed to the program.
    pub light: bool,
    /// The transform depends on the animation time.
    pub animated: bool,
}

/// The plan of each mode.
pub open spec fn plan_of(m: RenderMode) -> DrawPlan {
    match m {
        RenderMode::AnimatedTriangle => DrawPlan {
            depth_test: false,
            clear_depth: false,
            indexed: false,
            normals: false,
            light: false,
            animated: true,
        },
        RenderMode::StaticMesh => DrawPlan {
            depth_test: true,
            clear_depth: true,
            indexed: true,
            normals: false,
            light: false,
            animated: false,
        },
        RenderMode::LitMesh => DrawPlan {
            depth_test: true,
            clear_depth: true,
            indexed: true,
            normals: true,
            light: true,
            animated: false,
        },
    }
}

impl RenderMode {
    /// How a frame of this mode is cleared and drawn. The depth buffer is
    /// cleared exactly when depth is tested, and only the triangle moves.
    pub fn plan(self) -> (p: DrawPlan)
        ensures
            p == plan_of(self),
            p.clear_depth == p.depth_test,
            p.animated <==> self is AnimatedTriangle,
            p.light ==> p.normals,
    {
        match self {
            RenderMode::AnimatedTriangle => DrawPlan {
                depth_test: false,
                clear_depth: false,
                indexed: false,
                normals: false,
                light: false,
                animated: true,
            },
            RenderMode::StaticMesh => DrawPlan {
                depth_test: true,
                clear_depth: true,
                indexed: true,
                normals: false,
                light: false,
                animated: false,
            },
            RenderMode::LitMesh => DrawPlan {
                depth_test: true,
                clear_depth: true,
                indexed: true,
                normals: true,
                light: true,
                animated: false,
            },
        }
    }
}

} // verus!

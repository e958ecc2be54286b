//! How many workgroups a compute dispatch launches.
use vstd::prelude::*;

verus! {

/// Workgroup width of the compute shaders.
pub const WORKGROUP_X: u32 = 8;

/// Workgroup height of the compute shaders.
pub const WORKGROUP_Y: u32 = 8;

/// Workgroup depth of the compute shaders.
pub const WORKGROUP_Z: u32 = 1;

/// The extent that a compute dispatch covers: the whole frame, or a given grid.
#[derive(Clone, Copy, PartialEq, Eq, Structural, Debug)]
pub enum DispatchSize {
    FrameResolution,
    Custom(u32, u32, u32),
}

/// The number of workgroups of size `group` launched along an axis of extent `n`: one more
/// than the whole groups that fit, so that a partial group at the end is covered.
pub open spec fn groups_for(n: u32, group: u32) -> int {
    n / group + 1
}

impl DispatchSize {
    /// The grid `[x, y, z]` that this dispatch covers in a frame of `frame_width × frame_height`.
    pub open spec fn extent(self, frame_width: u32, frame_height: u32) -> (u32, u32, u32) {
        match self {
            DispatchSize::FrameResolution => (frame_width, frame_height, 0),
            DispatchSize::Custom(x, y, z) => (x, y, z),
        }
    }

    /// The workgroup counts along each axis for workgroups of `group_x × group_y × group_z`.
    /// A dispatch over the frame launches a single layer of groups.
    pub fn group_counts(
        self,
        frame_width: u32,
        frame_height: u32,
        group_x: u32,
        group_y: u32,
        group_z: u32,
    ) -> (r: [u32; 3])
        requires
            group_x > 0,
            group_y > 0,
            group_z > 0,
            groups_for(self.extent(frame_width, frame_height).0, group_x) <= u32::MAX,
            groups_for(self.extent(frame_width, frame_height).1, group_y) <= u32::MAX,
            groups_for(self.extent(frame_width, frame_height).2, group_z) <= u32::MAX,
        ensures
            r[0] == groups_for(self.extent(frame_width, frame_height).0, group_x),
            r[1] == groups_for(self.extent(frame_width, frame_height).1, group_y),
            r[2] == (match self {
                DispatchSize::FrameResolution => 1,
                DispatchSize::Custom(_, _, z) => groups_for(z, group_z),
            }),
    {
        match self {
            DispatchSize::FrameResolution => [
                frame_width / group_x + 1,
                frame_height / group_y + 1,
                1,
            ],
            DispatchSize::Custom(x, y, z) => [x / group_x + 1, y / group_y + 1, z / group_z + 1],
        }
    }
}

} // verus!

//! Scene start-up: where the camera is spawned and which maps are loaded.

use crate::discovery::{asset_path, asset_prefix, discover_maps, discovered, Listing};
use vstd::prelude::*;

verus! {

/// Width of the window, in pixels.
pub const WINDOW_WIDTH: u32 = 1280;

/// Height of the window, in pixels.
pub const WINDOW_HEIGHT: u32 = 720;

/// Where the camera starts, in world units: across.
pub const CAMERA_START_X: i32 = 400;

/// Where the camera starts, in world units: upwards.
pub const CAMERA_START_Y: i32 = 300;

/// Where the camera starts, in world units: its depth.
pub const CAMERA_START_Z: i32 = 0;

/// The position at which the one camera is spawned, in world units.
#[derive(Clone, Copy, Debug, PartialEq, Eq, Structural)]
pub struct CameraSpawn {
    pub x: i32,
    pub y: i32,
    pub z: i32,
}

/// One map to load: its file name, and the asset path to ask the map
/// runtime for.
#[derive(Debug)]
pub struct MapLoad {
    pub file: String,
    pub asset_path: String,
}

/// What start-up does: spawn the camera, then ask for each map once, in
/// order.
#[derive(Debug)]
pub struct StartupPlan {
    pub camera: CameraSpawn,
    pub loads: Vec<MapLoad>,
}

impl MapLoad {
    /// This load asks for the map file `name` under its asset path.
    pub open spec fn loads_map(self, name: Seq<char>) -> bool {
        self.file@ == name && self.asset_path@ == asset_prefix() + name
    }
}

impl StartupPlan {
    /// The plan spawns the camera at its start, and its loads are those of
    /// the maps `names`, one each, in order.
    pub open spec fn loads_exactly(self, names: Seq<Seq<char>>) -> bool {
        &&& self.camera == (CameraSpawn { x: CAMERA_START_X, y: CAMERA_START_Y, z: CAMERA_START_Z })
        &&& self.loads.len() == names.len()
        &&& forall|i: int| 0 <= i < names.len() ==> (#[trigger] self.loads[i]).loads_map(names[i])
    }

    /// Whether the notice that no maps were found is due: the plan loads
    /// nothing.
    pub fn no_maps_found(&self) -> (none: bool)
        ensures
            none == (self.loads.len() == 0),
    {
        self.loads.len() == 0
    }
}

/// Plans the start-up from the scan of the maps directory: the camera at
/// its start, and one load for each discovered map, in the order of the
/// directory.
pub fn setup(listing: &Listing) -> (plan: StartupPlan)
    ensures
        plan.loads_exactly(discovered(*listing)),
        !(listing is Entries) ==> plan.loads.len() == 0,
{
    let maps = discover_maps(listing);
    let ghost names = maps.deep_view();
    let mut loads: Vec<MapLoad> = Vec::new();
    for i in 0..maps.len()
        invariant
            names == maps.deep_view(),
            loads.len() == i,
            forall|j: int| 0 <= j < i ==> (#[trigger] loads[j]).loads_map(names[j]),
    {
        assert(names[i as int] == maps[i as int]@);
        let file = maps[i].clone();
        let asset_path = asset_path(file.as_str());
        loads.push(MapLoad { file, asset_path });
    }
    StartupPlan {
        camera: CameraSpawn { x: CAMERA_START_X, y: CAMERA_START_Y, z: CAMERA_START_Z },
        loads,
    }
}

} // verus!

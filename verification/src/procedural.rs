//! Builds the procedural-generation configuration used by quick-start jobs:
//! a fixed YAML template with the scene count, object range and environment
//! filled in.

use vstd::prelude::*;
use crate::numbers::i32_dec;
use crate::numbers::i32_to_string;

verus! {

/// The template text with the given values filled in: scene count, batch
/// size (the scene count capped at 100), the object count range and the
/// environment name.
pub open spec fn procedural_config_spec(
    num_scenes: int,
    min_objects: int,
    max_objects: int,
    environment: Seq<char>,
) -> Seq<char> {
    "num_scenes: "@ + i32_dec(num_scenes) + "\nscenes_per_batch: "@ + i32_dec(
        if num_scenes < 100 {
            num_scenes
        } else {
            100
        },
    )
        + "\nheadless: true\nmax_workers: 1\n\nscene:\n  objects:\n    object_categories:\n      - box_small\n      - box_medium\n      - bottle\n      - pouch\n    num_objects_range: ["@
        + i32_dec(min_objects) + ", "@ + i32_dec(max_objects)
        + "]\n    randomize_rotation: true\n    use_physics_settling: true\n    physics_settling_steps: 150\n\n  environment:\n    environment_type: "@
        + environment
        + "\n    bin_size: [0.64, 0.44, 0.3]\n\ncamera:\n  position_range_x: [0.5, 0.8]\n  position_range_y: [0.6, 0.8]\n  position_range_z: [0.6, 1.0]\n  look_at_target: [0, 0.15, 0]\n\n  intrinsics:\n    focal_length: 35\n    sensor_width: 36\n    resolution: [1280, 720]\n\nlighting:\n  profile: StandardOverhead\n  num_lights_range: [4, 6]\n  intensity_range: [2.0, 4.0]\n"@
}

/// Renders the quick-start configuration for the given scene count, object
/// range and environment type.
pub fn generate_procedural_config(
    num_scenes: i32,
    min_objects: i32,
    max_objects: i32,
    environment: &str,
) -> (r: String)
    ensures
        r@ == procedural_config_spec(
            num_scenes as int,
            min_objects as int,
            max_objects as int,
            environment@,
        ),
{
    let batch: i32 = if num_scenes < 100 {
        num_scenes
    } else {
        100
    };
    let ns = i32_to_string(num_scenes);
    let bs = i32_to_string(batch);
    let mn = i32_to_string(min_objects);
    let mx = i32_to_string(max_objects);
    let r = String::from_str("num_scenes: ").concat(ns.as_str()).concat(
        "\nscenes_per_batch: ",
    ).concat(bs.as_str()).concat(
        "\nheadless: true\nmax_workers: 1\n\nscene:\n  objects:\n    object_categories:\n      - box_small\n      - box_medium\n      - bottle\n      - pouch\n    num_objects_range: [",
    ).concat(mn.as_str()).concat(", ").concat(mx.as_str()).concat(
        "]\n    randomize_rotation: true\n    use_physics_settling: true\n    physics_settling_steps: 150\n\n  environment:\n    environment_type: ",
    ).concat(environment).concat(
        "\n    bin_size: [0.64, 0.44, 0.3]\n\ncamera:\n  position_range_x: [0.5, 0.8]\n  position_range_y: [0.6, 0.8]\n  position_range_z: [0.6, 1.0]\n  look_at_target: [0, 0.15, 0]\n\n  intrinsics:\n    focal_length: 35\n    sensor_width: 36\n    resolution: [1280, 720]\n\nlighting:\n  profile: StandardOverhead\n  num_lights_range: [4, 6]\n  intensity_range: [2.0, 4.0]\n",
    );
    proof {
        assert(r@ =~= procedural_config_spec(
            num_scenes as int,
            min_objects as int,
            max_objects as int,
            environment@,
        ));
    }
    r
}

} // verus!

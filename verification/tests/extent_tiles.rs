use gravlume_render::extent::{ExtentChange, ExtentTracker, RenderExtent};
use gravlume_render::tiles::{
    TileRegion, dispatch_words, edge_capacity, escape_map_node_workgroups, escape_map_scratch_bytes,
    shadow_coverage_scratch_bytes, tile_grid, trace_record_plane_size,
};

#[test]
fn zero_extents_are_not_render_extents() {
    assert!(RenderExtent::new(0, 1).is_none());
    assert!(RenderExtent::new(1, 0).is_none());
    let extent = RenderExtent::new(3, 4).expect("nonzero");
    assert_eq!((extent.width(), extent.height()), (3, 4));
}

#[test]
fn the_tracker_rebuilds_new_extents_and_pauses_once() {
    let tracker = ExtentTracker::default();
    let (tracker, change) = tracker.updated(640, 480);
    let extent = RenderExtent::new(640, 480).expect("nonzero");
    assert_eq!(change, ExtentChange::Rebuild { extent, generation: 1 });
    let (tracker, change) = tracker.updated(640, 480);
    assert_eq!(change, ExtentChange::Unchanged);
    let (tracker, change) = tracker.updated(0, 480);
    assert_eq!(change, ExtentChange::Paused);
    assert_eq!(tracker.extent(), None);
    assert_eq!(tracker.generation(), 1);
    let (tracker, change) = tracker.updated(640, 0);
    assert_eq!(change, ExtentChange::Unchanged);
    let (tracker, change) = tracker.updated(640, 480);
    assert_eq!(change, ExtentChange::Rebuild { extent, generation: 2 });
    assert_eq!(tracker.generation(), 2);
}

#[test]
fn updates_follow_extent_and_generation_contract() {
    // A fixed walk over small sizes, zero sides included, checked against a direct model.
    let mut updates = Vec::new();
    let mut seed: u32 = 7;
    for _ in 0..256 {
        seed = seed.wrapping_mul(1_103_515_245).wrapping_add(12_345);
        let width = (seed >> 8) % 5;
        seed = seed.wrapping_mul(1_103_515_245).wrapping_add(12_345);
        let height = (seed >> 8) % 4;
        updates.push((width * 16, height * 16));
    }
    updates.extend([(0, 0), (0, 0), (16, 16), (16, 16), (0, 16), (16, 16)]);

    let mut tracker = ExtentTracker::default();
    let mut model_extent = None;
    let mut model_generation = 0;
    let mut model_paused = false;

    for (width, height) in updates {
        let previous = tracker;
        let (next, change) = tracker.updated(width, height);
        let requested = RenderExtent::new(width, height);
        let expected = match requested {
            None if model_paused => ExtentChange::Unchanged,
            None => {
                model_extent = None;
                model_paused = true;
                ExtentChange::Paused
            }
            Some(extent) if !model_paused && model_extent == Some(extent) => ExtentChange::Unchanged,
            Some(extent) => {
                model_extent = Some(extent);
                model_paused = false;
                model_generation += 1;
                ExtentChange::Rebuild { extent, generation: model_generation }
            }
        };

        assert_eq!(change, expected);
        assert_eq!(next.extent(), model_extent);
        assert_eq!(next.generation(), model_generation);
        if change == ExtentChange::Unchanged {
            assert_eq!(next.extent(), previous.extent());
            assert_eq!(next.generation(), previous.generation());
        }
        tracker = next;
    }
    assert!(model_generation > 3);
}

#[test]
fn tiles_cover_the_extent_in_eight_pixel_workgroups() {
    let extent = RenderExtent::new(17, 8).expect("nonzero");
    assert_eq!(tile_grid(extent), [3, 1]);
    let all = TileRegion::all(extent);
    assert_eq!(all.origin(), [0, 0]);
    assert_eq!(all.workgroups(), [3, 1]);
    assert_eq!(all.len(), 3);
    assert!(all.finishes(extent));
    let first = TileRegion::new([0, 0], [2, 1]);
    assert!(!first.finishes(extent));
    assert_eq!(TileRegion::containing_pixel([9, 3]).origin(), [1, 0]);
    assert_eq!(TileRegion::containing_pixel([9, 3]).workgroups(), [1, 1]);
    assert_eq!(dispatch_words(first), [0, 0, 2, 1]);
}

#[test]
fn scratch_sizes_follow_the_tile_grid_and_edge_bound() {
    let extent = RenderExtent::new(16, 16).expect("nonzero");
    assert_eq!(escape_map_scratch_bytes(extent), 5 * 5 * 4);
    assert_eq!(edge_capacity(extent), 256);
    assert_eq!(shadow_coverage_scratch_bytes(extent), 256 * 4 + 16);
    let wide = RenderExtent::new(1_000, 1_000).expect("nonzero");
    assert_eq!(edge_capacity(wide), 16_000);
    assert_eq!(trace_record_plane_size(extent), 16 * 16 * 16);
    assert_eq!(escape_map_node_workgroups(TileRegion::new([0, 0], [4, 1])), [2, 1]);
}

#[test]
fn a_region_finishes_exactly_when_it_is_the_row_major_suffix() {
    for (width, height) in [(24, 24), (32, 16), (8, 40), (17, 9)] {
        let extent = RenderExtent::new(width, height).expect("nonzero");
        let [columns, rows] = tile_grid(extent);
        let total = columns * rows;
        let mut finishing = 0;
        for origin_y in 0..rows {
            for origin_x in 0..columns {
                for height_tiles in 1..=rows - origin_y {
                    for width_tiles in 1..=columns - origin_x {
                        let region = TileRegion::new([origin_x, origin_y], [width_tiles, height_tiles]);
                        let first = total - region.len();
                        let suffix = (0..rows).all(|y| {
                            (0..columns).all(|x| {
                                let inside = origin_x <= x
                                    && x < origin_x + width_tiles
                                    && origin_y <= y
                                    && y < origin_y + height_tiles;
                                inside == (first <= y * columns + x)
                            })
                        });
                        assert_eq!(region.finishes(extent), suffix, "{origin_x},{origin_y} {width_tiles}x{height_tiles}");
                        if suffix {
                            finishing += 1;
                        }
                    }
                }
            }
        }
        // One finishing region per nonempty suffix length that is a partial last row or whole rows.
        assert_eq!(finishing, columns + rows - 1);
        assert!(TileRegion::all(extent).finishes(extent));
    }
}

use vstd::prelude::*;

verus! {

/// The most layers a snow cover can have; eight layers fill a whole block.
pub const MAX_SNOW_LAYERS: u8 = 8;

/// `v` brought into `1..=8`.
pub open spec fn clamp_layers(v: int) -> int {
    if v < 1 {
        1
    } else if v > MAX_SNOW_LAYERS {
        MAX_SNOW_LAYERS as int
    } else {
        v
    }
}

/// A cover of stacked snow layers.
#[derive(Clone, Copy, PartialEq, Eq, Hash, Debug, Structural)]
pub struct SnowLayer {
    /// The number of stacked layers, from 1 to 8.
    pub layers: u8,
}

impl SnowLayer {
    /// A cover of `layers` layers, brought into `1..=8`.
    pub fn new(layers: u8) -> (r: SnowLayer)
        ensures
            r.layers == clamp_layers(layers as int),
    {
        let l = if layers < 1 {
            1
        } else if layers > MAX_SNOW_LAYERS {
            MAX_SNOW_LAYERS
        } else {
            layers
        };
        SnowLayer { layers: l }
    }

    /// Whether one more layer fits.
    pub fn can_add_layer(&self) -> (r: bool)
        ensures
            r == (self.layers < MAX_SNOW_LAYERS),
    {
        self.layers < MAX_SNOW_LAYERS
    }

    /// The cover with one more layer, or `None` when it is already full.
    pub fn add_layer(self) -> (r: Option<SnowLayer>)
        ensures
            self.layers < MAX_SNOW_LAYERS ==> r == Some(SnowLayer { layers: clamp_layers(self.layers + 1) as u8 }),
            self.layers >= MAX_SNOW_LAYERS ==> r is None,
    {
        if self.can_add_layer() {
            Some(SnowLayer::new(self.layers + 1))
        } else {
            None
        }
    }

    /// The cover with `count` more layers, stopping at a full block.
    pub fn add_layers(self, count: u8) -> (r: SnowLayer)
        ensures
            r.layers == clamp_layers(self.layers + count),
    {
        SnowLayer::new(self.layers.saturating_add(count))
    }
}

/// A snow cover always holds between one and eight layers, however many were asked for, and
/// adding layers fills it up to a whole block and no further.
pub proof fn law_snow_layers_bounded(requested: int, layers: u8, count: u8)
    requires
        1 <= layers <= MAX_SNOW_LAYERS,
    ensures
        1 <= clamp_layers(requested) <= MAX_SNOW_LAYERS,
        clamp_layers(layers + count) == if layers + count > MAX_SNOW_LAYERS {
            MAX_SNOW_LAYERS as int
        } else {
            layers + count
        },
{
}

impl Default for SnowLayer {
    /// A single layer.
    fn default() -> (r: SnowLayer)
        ensures
            r.layers == 1,
    {
        SnowLayer::new(1)
    }
}

}

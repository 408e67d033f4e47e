//! Scale of a simulation: how many devices, data points and resources.
use vstd::prelude::*;

verus! {

/// Scale configuration for simulations.
#[derive(Debug, Clone, Copy, PartialEq, Eq, Structural)]
pub struct ScaleConfig {
    /// Number of virtual devices to create.
    pub device_count: usize,
    /// Number of data points per device.
    pub points_per_device: usize,
    /// Batch size for device creation/deletion.
    pub batch_size: usize,
    /// Estimated memory per device in bytes.
    pub memory_per_device: usize,
    /// Number of concurrent connections.
    pub concurrent_connections: usize,
    /// Target operations per second.
    pub target_ops_per_sec: u64,
}

/// A scale built from its six numbers.
pub open spec fn scale(
    device_count: usize,
    points_per_device: usize,
    batch_size: usize,
    memory_per_device: usize,
    concurrent_connections: usize,
    target_ops_per_sec: u64,
) -> ScaleConfig {
    ScaleConfig {
        device_count,
        points_per_device,
        batch_size,
        memory_per_device,
        concurrent_connections,
        target_ops_per_sec,
    }
}

/// Scale presets for common scenarios.
#[derive(Debug, Clone, Copy, PartialEq, Eq, Structural)]
pub enum ScalePreset {
    /// 10 devices - quick validation.
    Tiny,
    /// 100 devices - development.
    Small,
    /// 1,000 devices - integration.
    Medium,
    /// 10,000 devices - performance.
    Large,
    /// 50,000 devices - stress.
    XLarge,
    /// 100,000 devices - capacity.
    Max,
}

/// The configuration of each preset.
pub open spec fn preset_config(p: ScalePreset) -> ScaleConfig {
    match p {
        ScalePreset::Tiny => scale(10, 10, 10, 1024, 5, 100),
        ScalePreset::Small => scale(100, 50, 50, 2048, 20, 1000),
        ScalePreset::Medium => scale(1000, 100, 100, 4096, 100, 10000),
        ScalePreset::Large => scale(10000, 100, 500, 4096, 500, 100000),
        ScalePreset::XLarge => scale(50000, 100, 1000, 4096, 1000, 500000),
        ScalePreset::Max => scale(100000, 100, 2000, 4096, 2000, 1000000),
    }
}

/// `a` when it is at least `b`, else `b`.
pub open spec fn at_least(a: usize, b: usize) -> usize {
    if a >= b { a } else { b }
}

impl Default for ScaleConfig {
    /// The medium preset.
    fn default() -> (r: Self)
        ensures
            r == preset_config(ScalePreset::Medium),
    {
        ScaleConfig::medium()
    }
}

impl ScaleConfig {
    /// A scale for a device count: a hundred points per device, 4 KiB per
    /// device, batches and connections a hundredth of the count (at least 100
    /// and 10), ten operations per second per device.
    pub fn devices(count: usize) -> (r: Self)
        requires
            count * 10 <= usize::MAX,
        ensures
            r == scale(
                count,
                100,
                at_least(count / 100, 100),
                4096,
                at_least(count / 100, 10),
                (count * 10) as u64,
            ),
    {
        let hundredth = count / 100;
        ScaleConfig {
            device_count: count,
            points_per_device: 100,
            batch_size: if hundredth >= 100 { hundredth } else { 100 },
            memory_per_device: 4096,
            concurrent_connections: if hundredth >= 10 { hundredth } else { 10 },
            target_ops_per_sec: (count * 10) as u64,
        }
    }

    /// Tiny scale - for quick tests.
    pub fn tiny() -> (r: Self)
        ensures
            r == preset_config(ScalePreset::Tiny),
    {
        ScaleConfig {
            device_count: 10,
            points_per_device: 10,
            batch_size: 10,
            memory_per_device: 1024,
            concurrent_connections: 5,
            target_ops_per_sec: 100,
        }
    }

    /// Small scale - for development testing.
    pub fn small() -> (r: Self)
        ensures
            r == preset_config(ScalePreset::Small),
    {
        ScaleConfig {
            device_count: 100,
            points_per_device: 50,
            batch_size: 50,
            memory_per_device: 2048,
            concurrent_connections: 20,
            target_ops_per_sec: 1000,
        }
    }

    /// Medium scale - for integration testing.
    pub fn medium() -> (r: Self)
        ensures
            r == preset_config(ScalePreset::Medium),
    {
        ScaleConfig {
            device_count: 1000,
            points_per_device: 100,
            batch_size: 100,
            memory_per_device: 4096,
            concurrent_connections: 100,
            target_ops_per_sec: 10000,
        }
    }

    /// Large scale - for performance testing.
    pub fn large() -> (r: Self)
        ensures
            r == preset_config(ScalePreset::Large),
    {
        ScaleConfig {
            device_count: 10000,
            points_per_device: 100,
            batch_size: 500,
            memory_per_device: 4096,
            concurrent_connections: 500,
            target_ops_per_sec: 100000,
        }
    }

    /// Extra large scale - for stress testing.
    pub fn xlarge() -> (r: Self)
        ensures
            r == preset_config(ScalePreset::XLarge),
    {
        ScaleConfig {
            device_count: 50000,
            points_per_device: 100,
            batch_size: 1000,
            memory_per_device: 4096,
            concurrent_connections: 1000,
            target_ops_per_sec: 500000,
        }
    }

    /// Maximum scale - for capacity testing.
    pub fn max() -> (r: Self)
        ensures
            r == preset_config(ScalePreset::Max),
    {
        ScaleConfig {
            device_count: 100000,
            points_per_device: 100,
            batch_size: 2000,
            memory_per_device: 4096,
            concurrent_connections: 2000,
            target_ops_per_sec: 1000000,
        }
    }

    /// Sets the device count.
    pub fn with_device_count(self, count: usize) -> (r: Self)
        ensures
            r == (ScaleConfig { device_count: count, ..self }),
    {
        ScaleConfig { device_count: count, ..self }
    }

    /// Sets the points per device.
    pub fn with_points_per_device(self, count: usize) -> (r: Self)
        ensures
            r == (ScaleConfig { points_per_device: count, ..self }),
    {
        ScaleConfig { points_per_device: count, ..self }
    }

    /// Sets the batch size.
    pub fn with_batch_size(self, size: usize) -> (r: Self)
        ensures
            r == (ScaleConfig { batch_size: size, ..self }),
    {
        ScaleConfig { batch_size: size, ..self }
    }

    /// Sets the memory per device.
    pub fn with_memory_per_device(self, bytes: usize) -> (r: Self)
        ensures
            r == (ScaleConfig { memory_per_device: bytes, ..self }),
    {
        ScaleConfig { memory_per_device: bytes, ..self }
    }

    /// Total data points: devices times points per device.
    pub fn total_points(&self) -> (r: usize)
        requires
            self.device_count * self.points_per_device <= usize::MAX,
        ensures
            r == self.device_count * self.points_per_device,
    {
        self.device_count * self.points_per_device
    }

    /// Estimated total memory: devices times memory per device.
    pub fn estimated_memory(&self) -> (r: usize)
        requires
            self.device_count * self.memory_per_device <= usize::MAX,
        ensures
            r == self.device_count * self.memory_per_device,
    {
        self.device_count * self.memory_per_device
    }
}

impl ScalePreset {
    /// The configuration of the preset.
    pub fn to_config(self) -> (r: ScaleConfig)
        ensures
            r == preset_config(self),
    {
        match self {
            ScalePreset::Tiny => ScaleConfig::tiny(),
            ScalePreset::Small => ScaleConfig::small(),
            ScalePreset::Medium => ScaleConfig::medium(),
            ScalePreset::Large => ScaleConfig::large(),
            ScalePreset::XLarge => ScaleConfig::xlarge(),
            ScalePreset::Max => ScaleConfig::max(),
        }
    }

    /// All presets, from smallest to largest.
    pub fn all() -> (r: &'static [ScalePreset])
        ensures
            r@ == seq![
                ScalePreset::Tiny,
                ScalePreset::Small,
                ScalePreset::Medium,
                ScalePreset::Large,
                ScalePreset::XLarge,
                ScalePreset::Max,
            ],
    {
        let r: &'static [ScalePreset] = &[
            ScalePreset::Tiny,
            ScalePreset::Small,
            ScalePreset::Medium,
            ScalePreset::Large,
            ScalePreset::XLarge,
            ScalePreset::Max,
        ];
        assert(r@ =~= seq![
            ScalePreset::Tiny,
            ScalePreset::Small,
            ScalePreset::Medium,
            ScalePreset::Large,
            ScalePreset::XLarge,
            ScalePreset::Max,
        ]);
        r
    }
}

impl From<ScalePreset> for ScaleConfig {
    fn from(preset: ScalePreset) -> (r: ScaleConfig) {
        preset.to_config()
    }
}

impl vstd::std_specs::convert::FromSpecImpl<ScalePreset> for ScaleConfig {
    open spec fn obeys_from_spec() -> bool {
        true
    }

    open spec fn from_spec(preset: ScalePreset) -> ScaleConfig {
        preset_config(preset)
    }
}

/// The presets grow in device count.
pub proof fn lemma_presets_grow()
    ensures
        forall|i: int, j: int|
            0 <= i < j < 6 ==> preset_config(preset_at(i)).device_count < preset_config(
                preset_at(j),
            ).device_count,
{
}

/// The preset at a position of [`ScalePreset::all`].
pub open spec fn preset_at(i: int) -> ScalePreset {
    if i == 0 {
        ScalePreset::Tiny
    } else if i == 1 {
        ScalePreset::Small
    } else if i == 2 {
        ScalePreset::Medium
    } else if i == 3 {
        ScalePreset::Large
    } else if i == 4 {
        ScalePreset::XLarge
    } else {
        ScalePreset::Max
    }
}

} // verus!

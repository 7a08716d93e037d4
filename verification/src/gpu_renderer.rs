//! Rendering primitives and the choice between GPU and CPU drawing.

use vstd::prelude::*;

verus! {

/// Line styles the GPU renderer draws.
#[derive(Debug, Clone, Copy, PartialEq, Eq, Structural)]
pub enum LineStyle {
    Solid,
    Dashed,
    Dotted,
}

/// Point shapes the GPU renderer draws.
#[derive(Debug, Clone, Copy, PartialEq, Eq, Structural)]
pub enum PointShape {
    Circle,
    Square,
    Diamond,
    Triangle,
}

/// Identifies a vertex buffer held by the GPU renderer.
#[derive(Debug, Clone, Copy, PartialEq, Eq, Hash, Structural)]
pub struct BufferId(pub u32);

/// What the GPU renderer can do.
#[derive(Debug, Clone, Copy, PartialEq, Eq, Structural)]
pub struct GpuCapabilities {
    pub max_vertices: usize,
    pub max_instances: usize,
    pub supports_instancing: bool,
    pub supports_compute: bool,
    pub max_texture_size: u32,
}

/// Which renderer draws plots.
#[derive(Debug, Clone, Copy, PartialEq, Eq, Structural)]
pub enum RenderMode {
    Gpu,
    Cpu,
    Auto,
}

/// The GPU renderer is not available.
#[derive(Debug, Clone, Copy, PartialEq, Eq, Structural)]
pub struct GpuUnavailable;

/// The choice of renderer for plots: the capabilities of the GPU renderer
/// when one is available, and the mode currently chosen.
#[derive(Debug, Clone, Copy, PartialEq, Eq, Structural)]
pub struct RenderModeSelector {
    pub gpu: Option<GpuCapabilities>,
    pub fallback_available: bool,
    pub current_mode: RenderMode,
}

/// The renderer a line chart is drawn with in each mode.
pub open spec fn line_chart_renderer(s: RenderModeSelector) -> RenderMode {
    match s.current_mode {
        RenderMode::Gpu => RenderMode::Gpu,
        RenderMode::Cpu => RenderMode::Cpu,
        RenderMode::Auto => if s.gpu is Some {
            RenderMode::Gpu
        } else {
            RenderMode::Cpu
        },
    }
}

/// The mode chosen for `data_size` points: the GPU for more than 10 000
/// points that it can hold, the CPU otherwise.
pub open spec fn auto_mode(gpu: Option<GpuCapabilities>, data_size: nat) -> RenderMode {
    match gpu {
        Some(c) => if data_size > 10000 && c.max_vertices > data_size {
            RenderMode::Gpu
        } else {
            RenderMode::Cpu
        },
        None => RenderMode::Cpu,
    }
}

/// The GPU is chosen only when there is one.
pub open spec fn gpu_mode_backed(s: RenderModeSelector) -> bool {
    s.current_mode == RenderMode::Gpu ==> s.gpu is Some
}

/// A selector chooses the GPU only when there is one: so it is when made,
/// and every switch keeps it so. In such a state a line chart is drawn on
/// the GPU only when there is one.
pub proof fn law_gpu_mode_backed(
    gpu: Option<GpuCapabilities>,
    s: RenderModeSelector,
    data_size: nat,
)
    requires
        gpu_mode_backed(s),
    ensures
        gpu_mode_backed(
            RenderModeSelector { gpu, fallback_available: true, current_mode: RenderMode::Auto },
        ),
        gpu_mode_backed(RenderModeSelector { current_mode: RenderMode::Cpu, ..s }),
        gpu_mode_backed(RenderModeSelector { current_mode: auto_mode(s.gpu, data_size), ..s }),
        s.gpu is Some ==> gpu_mode_backed(RenderModeSelector { current_mode: RenderMode::Gpu, ..s }),
        line_chart_renderer(s) == RenderMode::Gpu ==> s.gpu is Some,
{
}

impl RenderModeSelector {
    /// A selector in automatic mode, given what the GPU renderer (if any)
    /// can do.
    pub fn new(gpu: Option<GpuCapabilities>) -> (r: Self)
        ensures
            r == (RenderModeSelector { gpu, fallback_available: true, current_mode: RenderMode::Auto }),
    {
        RenderModeSelector { gpu, fallback_available: true, current_mode: RenderMode::Auto }
    }

    /// The renderer that draws a line chart now: the chosen one, or in
    /// automatic mode the GPU when it is available.
    pub fn line_chart_renderer(&self) -> (r: RenderMode)
        ensures
            r == line_chart_renderer(*self),
            r != RenderMode::Auto,
    {
        match self.current_mode {
            RenderMode::Gpu => RenderMode::Gpu,
            RenderMode::Cpu => RenderMode::Cpu,
            RenderMode::Auto => if self.gpu.is_some() {
                RenderMode::Gpu
            } else {
                RenderMode::Cpu
            },
        }
    }

    /// Chooses the GPU when it is available; fails and keeps the mode
    /// otherwise.
    pub fn switch_to_gpu(&mut self) -> (r: Result<(), GpuUnavailable>)
        ensures
            old(self).gpu is Some ==> r is Ok && *final(self) == (RenderModeSelector {
                current_mode: RenderMode::Gpu,
                ..*old(self)
            }),
            old(self).gpu is None ==> r is Err && *final(self) == *old(self),
    {
        if self.gpu.is_some() {
            self.current_mode = RenderMode::Gpu;
            Ok(())
        } else {
            Err(GpuUnavailable)
        }
    }

    /// Chooses the CPU.
    pub fn switch_to_cpu(&mut self)
        ensures
            *final(self) == (RenderModeSelector { current_mode: RenderMode::Cpu, ..*old(self) }),
    {
        self.current_mode = RenderMode::Cpu;
    }

    /// Chooses the renderer for drawing `data_size` points.
    pub fn auto_select_mode(&mut self, data_size: usize)
        ensures
            *final(self) == (RenderModeSelector {
                current_mode: auto_mode(old(self).gpu, data_size as nat),
                ..*old(self)
            }),
    {
        match &self.gpu {
            Some(capabilities) => {
                if data_size > 10000 && capabilities.max_vertices > data_size {
                    self.current_mode = RenderMode::Gpu;
                } else {
                    self.current_mode = RenderMode::Cpu;
                }
            },
            None => {
                self.current_mode = RenderMode::Cpu;
            },
        }
    }

    /// Whether the GPU renderer is available.
    pub fn is_gpu_available(&self) -> (r: bool)
        ensures
            r == self.gpu is Some,
    {
        self.gpu.is_some()
    }

    /// What the GPU renderer can do, when it is available.
    pub fn get_capabilities(&self) -> (r: Option<&GpuCapabilities>)
        ensures
            match r {
                Some(c) => self.gpu == Some(*c),
                None => self.gpu is None,
            },
    {
        match &self.gpu {
            Some(c) => Some(c),
            None => None,
        }
    }
}

} // verus!

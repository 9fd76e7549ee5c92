//! Rendering options of the demo renderer: the tonemapper selection and
//! the feature toggles, with their two stock configurations.

use vstd::prelude::*;

verus! {

/// The tonemapping operators the renderer offers. Kept in sync with the
/// tonemapper constants of the shader pack. `Max` is the count sentinel.
#[derive(Clone, Copy, Debug, PartialEq, Eq, Structural)]
pub enum TonemapperType {
    Off,
    StephenHillACES,
    SimplifiedLumaACES,
    Hejl2015,
    Hable,
    FilmicALU,
    LogDerivative,
    VisualizeRGBMax,
    VisualizeLuma,
    Max,
}

impl TonemapperType {
    /// The zero-based position of this operator in the shader's table.
    pub open spec fn spec_index(self) -> int {
        match self {
            TonemapperType::Off => 0,
            TonemapperType::StephenHillACES => 1,
            TonemapperType::SimplifiedLumaACES => 2,
            TonemapperType::Hejl2015 => 3,
            TonemapperType::Hable => 4,
            TonemapperType::FilmicALU => 5,
            TonemapperType::LogDerivative => 6,
            TonemapperType::VisualizeRGBMax => 7,
            TonemapperType::VisualizeLuma => 8,
            TonemapperType::Max => 9,
        }
    }

    /// Executable mirror of `spec_index`.
    pub fn index(&self) -> (r: i32)
        ensures
            r == self.spec_index(),
    {
        match self {
            TonemapperType::Off => 0,
            TonemapperType::StephenHillACES => 1,
            TonemapperType::SimplifiedLumaACES => 2,
            TonemapperType::Hejl2015 => 3,
            TonemapperType::Hable => 4,
            TonemapperType::FilmicALU => 5,
            TonemapperType::LogDerivative => 6,
            TonemapperType::VisualizeRGBMax => 7,
            TonemapperType::VisualizeLuma => 8,
            TonemapperType::Max => 9,
        }
    }

    /// The operator at a shader-table position. Out-of-range values are
    /// rejected instead of reinterpreted: the conversion is total and
    /// checked, never a raw cast.
    pub fn from_i32(v: i32) -> (r: Option<TonemapperType>)
        ensures
            r is Some <==> 0 <= v <= 9,
            r matches Some(t) ==> t.spec_index() == v,
    {
        match v {
            0 => Some(TonemapperType::Off),
            1 => Some(TonemapperType::StephenHillACES),
            2 => Some(TonemapperType::SimplifiedLumaACES),
            3 => Some(TonemapperType::Hejl2015),
            4 => Some(TonemapperType::Hable),
            5 => Some(TonemapperType::FilmicALU),
            6 => Some(TonemapperType::LogDerivative),
            7 => Some(TonemapperType::VisualizeRGBMax),
            8 => Some(TonemapperType::VisualizeLuma),
            9 => Some(TonemapperType::Max),
            _ => None,
        }
    }

    /// The name shown for this operator.
    pub open spec fn spec_display_name(self) -> Seq<char> {
        match self {
            TonemapperType::Off => "None"@,
            TonemapperType::StephenHillACES => "Stephen Hill ACES"@,
            TonemapperType::SimplifiedLumaACES => "SimplifiedLumaACES"@,
            TonemapperType::Hejl2015 => "Hejl 2015"@,
            TonemapperType::Hable => "Hable"@,
            TonemapperType::FilmicALU => "Filmic ALU (Hable)"@,
            TonemapperType::LogDerivative => "LogDerivative"@,
            TonemapperType::VisualizeRGBMax => "Visualize RGB Max"@,
            TonemapperType::VisualizeLuma => "Visualize RGB Luma"@,
            TonemapperType::Max => "MAX_TONEMAPPER_VALUE"@,
        }
    }

    /// Executable mirror of `spec_display_name`.
    pub fn display_name(&self) -> (r: &'static str)
        ensures
            r@ == self.spec_display_name(),
    {
        match self {
            TonemapperType::Off => "None",
            TonemapperType::StephenHillACES => "Stephen Hill ACES",
            TonemapperType::SimplifiedLumaACES => "SimplifiedLumaACES",
            TonemapperType::Hejl2015 => "Hejl 2015",
            TonemapperType::Hable => "Hable",
            TonemapperType::FilmicALU => "Filmic ALU (Hable)",
            TonemapperType::LogDerivative => "LogDerivative",
            TonemapperType::VisualizeRGBMax => "Visualize RGB Max",
            TonemapperType::VisualizeLuma => "Visualize RGB Luma",
            TonemapperType::Max => "MAX_TONEMAPPER_VALUE",
        }
    }
}

/// The renderer's feature toggles.
#[derive(Clone, Copy, Debug, PartialEq, Eq, Structural)]
pub struct RenderOptions {
    pub enable_msaa: bool,
    pub enable_hdr: bool,
    pub enable_bloom: bool,
    pub enable_textures: bool,
    pub enable_lighting: bool,
    pub show_surfaces: bool,
    pub show_wireframes: bool,
    pub show_debug3d: bool,
    pub show_text: bool,
    pub show_skybox: bool,
    pub show_feature_toggles: bool,
    pub show_shadows: bool,
    pub blur_pass_count: usize,
    pub tonemapper_type: TonemapperType,
    pub enable_visibility_update: bool,
}

impl RenderOptions {
    /// The configuration the two-dimensional scenes start from: no HDR
    /// pipeline, no MSAA, no bloom chain, no tonemapping.
    pub fn default_2d() -> (r: RenderOptions)
        ensures
            r == (RenderOptions {
                enable_msaa: false,
                enable_hdr: false,
                enable_bloom: false,
                enable_textures: true,
                enable_lighting: true,
                show_surfaces: true,
                show_wireframes: false,
                show_debug3d: true,
                show_text: true,
                show_skybox: true,
                show_shadows: true,
                show_feature_toggles: false,
                blur_pass_count: 0usize,
                tonemapper_type: TonemapperType::Off,
                enable_visibility_update: true,
            }),
    {
        RenderOptions {
            enable_msaa: false,
            enable_hdr: false,
            enable_bloom: false,
            enable_textures: true,
            enable_lighting: true,
            show_surfaces: true,
            show_wireframes: false,
            show_debug3d: true,
            show_text: true,
            show_skybox: true,
            show_shadows: true,
            show_feature_toggles: false,
            blur_pass_count: 0,
            tonemapper_type: TonemapperType::Off,
            enable_visibility_update: true,
        }
    }

    /// The configuration the three-dimensional scenes start from: the full
    /// HDR pipeline with MSAA, a five-pass bloom blur and the log
    /// derivative tonemapper.
    pub fn default_3d() -> (r: RenderOptions)
        ensures
            r == (RenderOptions {
                enable_msaa: true,
                enable_hdr: true,
                enable_bloom: true,
                enable_textures: true,
                enable_lighting: true,
                show_surfaces: true,
                show_wireframes: false,
                show_debug3d: true,
                show_text: true,
                show_skybox: true,
                show_shadows: true,
                show_feature_toggles: true,
                blur_pass_count: 5usize,
                tonemapper_type: TonemapperType::LogDerivative,
                enable_visibility_update: true,
            }),
    {
        RenderOptions {
            enable_msaa: true,
            enable_hdr: true,
            enable_bloom: true,
            enable_textures: true,
            enable_lighting: true,
            show_surfaces: true,
            show_wireframes: false,
            show_debug3d: true,
            show_text: true,
            show_skybox: true,
            show_shadows: true,
            show_feature_toggles: true,
            blur_pass_count: 5,
            tonemapper_type: TonemapperType::LogDerivative,
            enable_visibility_update: true,
        }
    }
}

/// Which of the debug overlay windows are open.
#[derive(Clone, Copy, Debug, PartialEq, Eq, Structural)]
pub struct DebugUiState {
    pub show_render_options: bool,
    pub show_asset_list: bool,
}

impl Default for DebugUiState {
    /// Every overlay window starts closed.
    fn default() -> (r: DebugUiState)
        ensures
            r == (DebugUiState { show_render_options: false, show_asset_list: false }),
    {
        DebugUiState { show_render_options: false, show_asset_list: false }
    }
}

} // verus!

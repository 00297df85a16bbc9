use vstd::prelude::*;

verus! {

/// Vertex format and shader pair a draw is recorded with.
#[derive(Debug, Clone, Copy, PartialEq, Eq, Structural)]
pub enum Pipeline {
    Color,
    Uv,
    ColorUv,
    Quad2d,
    Matcap,
    MatcapColor,
    MatcapUv,
    MatcapColorUv,
}

/// Number of pipeline variants, and of render pipelines a backend builds.
pub const PIPELINE_COUNT: usize = 8;

impl Pipeline {
    /// The pipeline a guest selects with the integer `v`, if any.
    pub open spec fn from_i32_spec(v: i32) -> Option<Pipeline> {
        if v == 0 {
            Some(Pipeline::Color)
        } else if v == 1 {
            Some(Pipeline::Uv)
        } else if v == 2 {
            Some(Pipeline::ColorUv)
        } else if v == 3 {
            Some(Pipeline::Quad2d)
        } else if v == 4 {
            Some(Pipeline::Matcap)
        } else if v == 5 {
            Some(Pipeline::MatcapColor)
        } else if v == 6 {
            Some(Pipeline::MatcapUv)
        } else if v == 7 {
            Some(Pipeline::MatcapColorUv)
        } else {
            None
        }
    }

    /// Index of the pipeline's shader in the backend's pipeline table.
    pub open spec fn shader_spec(self) -> usize {
        match self {
            Pipeline::Color => 0,
            Pipeline::Uv => 1,
            Pipeline::ColorUv => 2,
            Pipeline::Quad2d => 3,
            Pipeline::Matcap => 4,
            Pipeline::MatcapColor => 5,
            Pipeline::MatcapUv => 6,
            Pipeline::MatcapColorUv => 7,
        }
    }

    /// Floats per vertex: a position, then color, uv and normal parts.
    pub open spec fn attribute_count_spec(self) -> usize {
        match self {
            Pipeline::Color => 6,
            Pipeline::Uv => 5,
            Pipeline::ColorUv | Pipeline::Quad2d => 8,
            Pipeline::Matcap => 6,
            Pipeline::MatcapColor => 9,
            Pipeline::MatcapUv => 8,
            Pipeline::MatcapColorUv => 11,
        }
    }

    pub open spec fn name_spec(self) -> Seq<char> {
        match self {
            Pipeline::Color => "color"@,
            Pipeline::Uv => "uv"@,
            Pipeline::ColorUv => "color uv"@,
            Pipeline::Quad2d => "quad 2d"@,
            Pipeline::Matcap => "matcap"@,
            Pipeline::MatcapColor => "matcap color"@,
            Pipeline::MatcapUv => "matcap uv"@,
            Pipeline::MatcapColorUv => "matcap color uv"@,
        }
    }

    pub open spec fn vertex_shader_spec(self) -> Seq<char> {
        match self {
            Pipeline::Color => "vs_color"@,
            Pipeline::Uv => "vs_uv"@,
            Pipeline::ColorUv => "vs_color_uv"@,
            Pipeline::Quad2d => "vs_quad_2d"@,
            Pipeline::Matcap => "vs_matcap"@,
            Pipeline::MatcapColor => "vs_matcap_color"@,
            Pipeline::MatcapUv => "vs_matcap_uv"@,
            Pipeline::MatcapColorUv => "vs_matcap_color_uv"@,
        }
    }

    pub open spec fn fragment_shader_spec(self) -> Seq<char> {
        match self {
            Pipeline::Color => "fs_color"@,
            Pipeline::Uv | Pipeline::Quad2d => "fs_uv"@,
            Pipeline::ColorUv => "fs_color_uv"@,
            Pipeline::Matcap => "fs_matcap"@,
            Pipeline::MatcapColor => "fs_matcap_color"@,
            Pipeline::MatcapUv => "fs_matcap_uv"@,
            Pipeline::MatcapColorUv => "fs_matcap_color_uv"@,
        }
    }

    /// Parses the pipeline number a guest passes; numbers past the last variant are refused.
    pub fn try_from(value: i32) -> (r: Result<Pipeline, &'static str>)
        ensures
            r is Ok <==> Self::from_i32_spec(value) is Some,
            r is Ok ==> Some(r->Ok_0) == Self::from_i32_spec(value),
    {
        match value {
            0 => Ok(Pipeline::Color),
            1 => Ok(Pipeline::Uv),
            2 => Ok(Pipeline::ColorUv),
            3 => Ok(Pipeline::Quad2d),
            4 => Ok(Pipeline::Matcap),
            5 => Ok(Pipeline::MatcapColor),
            6 => Ok(Pipeline::MatcapUv),
            7 => Ok(Pipeline::MatcapColorUv),
            _ => Err("Invalid Pipeline"),
        }
    }

    pub fn name(&self) -> (r: &'static str)
        ensures
            r@ == self.name_spec(),
    {
        match self {
            Pipeline::Color => "color",
            Pipeline::Uv => "uv",
            Pipeline::ColorUv => "color uv",
            Pipeline::Quad2d => "quad 2d",
            Pipeline::Matcap => "matcap",
            Pipeline::MatcapColor => "matcap color",
            Pipeline::MatcapUv => "matcap uv",
            Pipeline::MatcapColorUv => "matcap color uv",
        }
    }

    /// Entry point of the pipeline's vertex shader.
    pub fn vertex_shader(&self) -> (r: &'static str)
        ensures
            r@ == self.vertex_shader_spec(),
    {
        match self {
            Pipeline::Color => "vs_color",
            Pipeline::Uv => "vs_uv",
            Pipeline::ColorUv => "vs_color_uv",
            Pipeline::Quad2d => "vs_quad_2d",
            Pipeline::Matcap => "vs_matcap",
            Pipeline::MatcapColor => "vs_matcap_color",
            Pipeline::MatcapUv => "vs_matcap_uv",
            Pipeline::MatcapColorUv => "vs_matcap_color_uv",
        }
    }

    /// Entry point of the pipeline's fragment shader.
    pub fn fragment_shader(&self) -> (r: &'static str)
        ensures
            r@ == self.fragment_shader_spec(),
    {
        match self {
            Pipeline::Color => "fs_color",
            Pipeline::Uv | Pipeline::Quad2d => "fs_uv",
            Pipeline::ColorUv => "fs_color_uv",
            Pipeline::Matcap => "fs_matcap",
            Pipeline::MatcapColor => "fs_matcap_color",
            Pipeline::MatcapUv => "fs_matcap_uv",
            Pipeline::MatcapColorUv => "fs_matcap_color_uv",
        }
    }

    pub fn get_shader(&self) -> (r: usize)
        ensures
            r == self.shader_spec(),
            r < PIPELINE_COUNT,
    {
        match self {
            Pipeline::Color => 0,
            Pipeline::Uv => 1,
            Pipeline::ColorUv => 2,
            Pipeline::Quad2d => 3,
            Pipeline::Matcap => 4,
            Pipeline::MatcapColor => 5,
            Pipeline::MatcapUv => 6,
            Pipeline::MatcapColorUv => 7,
        }
    }

    pub fn get_attribute_count(&self) -> (r: usize)
        ensures
            r == self.attribute_count_spec(),
            0 < r <= 11,
    {
        3 + match self {
            Pipeline::Color => 3,
            Pipeline::Uv => 2,
            Pipeline::ColorUv | Pipeline::Quad2d => 5,
            Pipeline::Matcap => 3,
            Pipeline::MatcapColor => 6,
            Pipeline::MatcapUv => 5,
            Pipeline::MatcapColorUv => 8,
        }
    }

    /// Bytes per vertex: four per float attribute.
    pub fn get_vertex_size(&self) -> (r: usize)
        ensures
            r == 4 * self.attribute_count_spec(),
    {
        self.get_attribute_count() * 4
    }
}

/// Every pipeline has a positive vertex stride, so a float count either is or is not a
/// whole number of its vertices.
pub proof fn lemma_attribute_count_positive(p: Pipeline)
    ensures
        p.attribute_count_spec() > 0,
        p.attribute_count_spec() <= 11,
{
}

} // verus!

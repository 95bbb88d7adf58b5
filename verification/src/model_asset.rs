//! The line-model asset: a line list with a color specification, expanded
//! into the flat vertex and color buffers a line-list mesh is built from.
//!
//! Coordinates in a model file are the engine's own and are carried here as
//! raw bit patterns; the expansion below only arranges them, it never
//! computes with them.

use vstd::prelude::*;

use crate::color::Rgba;

verus! {

/// One model vertex, each coordinate the bit pattern of the engine's value.
#[derive(PartialEq, Eq, Structural, Clone, Copy, Debug)]
pub struct VertexBits {
    pub x: u32,
    pub y: u32,
    pub z: u32,
}

/// A line model: its segments and its color specification.
pub struct Model {
    pub lines: Vec<(VertexBits, VertexBits)>,
    pub colors: ColorSpec,
}

/// How a model colors its lines.
pub enum ColorSpec {
    /// Every vertex takes the one color.
    Uniform(Rgba),
    /// Each line takes its own color on both vertices.
    PerLine(Vec<Rgba>),
    /// Each line takes a color per vertex.
    PerVertex(Vec<(Rgba, Rgba)>),
}

/// The file name suffix that selects the model asset loader.
pub struct ModelLoader;

impl ModelLoader {
    pub fn extensions(&self) -> (r: Vec<&'static str>)
        ensures
            r@.len() == 1,
            r@[0]@ == "mdl.ron"@,
    {
        let mut r: Vec<&'static str> = Vec::new();
        r.push("mdl.ron");
        r
    }
}

/// What the expanded color buffer holds at each position: the uniform color
/// everywhere, each line's color twice, or each line's two vertex colors in
/// order.
pub open spec fn expanded_colors_spec(colors: ColorSpec, n_lines: nat) -> Seq<Rgba> {
    match colors {
        ColorSpec::Uniform(c) => Seq::new(2 * n_lines, |i: int| c),
        ColorSpec::PerLine(cs) => Seq::new(
            2 * cs@.len(),
            |i: int| cs@[i / 2],
        ),
        ColorSpec::PerVertex(ps) => Seq::new(
            2 * ps@.len(),
            |i: int|
                if i % 2 == 0 {
                    ps@[i / 2].0
                } else {
                    ps@[i / 2].1
                },
        ),
    }
}

/// Expands a model's color specification into the flat per-vertex color
/// buffer of a mesh with `n_lines` segments.
pub fn expand_colors(colors: &ColorSpec, n_lines: usize) -> (r: Vec<Rgba>)
    requires
        2 * n_lines <= usize::MAX,
        colors matches ColorSpec::PerLine(cs) ==> 2 * cs@.len() <= usize::MAX,
        colors matches ColorSpec::PerVertex(ps) ==> 2 * ps@.len() <= usize::MAX,
    ensures
        r@ == expanded_colors_spec(*colors, n_lines as nat),
{
    let mut r: Vec<Rgba> = Vec::new();
    match colors {
        ColorSpec::Uniform(c) => {
            let mut i: usize = 0;
            while i < n_lines
                invariant
                    i <= n_lines,
                    2 * n_lines <= usize::MAX,
                    r@ == Seq::new(2 * i as nat, |j: int| *c),
                decreases n_lines - i,
            {
                r.push(*c);
                r.push(*c);
                i = i + 1;
                proof {
                    assert(r@ =~= Seq::new(2 * i as nat, |j: int| *c));
                }
            }
        },
        ColorSpec::PerLine(cs) => {
            let mut i: usize = 0;
            while i < cs.len()
                invariant
                    i <= cs@.len(),
                    2 * cs@.len() <= usize::MAX,
                    r@ == Seq::new(2 * i as nat, |j: int| cs@[j / 2]),
                decreases cs@.len() - i,
            {
                let c = cs[i];
                r.push(c);
                r.push(c);
                i = i + 1;
                proof {
                    assert(r@ =~= Seq::new(2 * i as nat, |j: int| cs@[j / 2]));
                }
            }
        },
        ColorSpec::PerVertex(ps) => {
            let mut i: usize = 0;
            while i < ps.len()
                invariant
                    i <= ps@.len(),
                    2 * ps@.len() <= usize::MAX,
                    r@ == Seq::new(
                        2 * i as nat,
                        |j: int|
                            if j % 2 == 0 {
                                ps@[j / 2].0
                            } else {
                                ps@[j / 2].1
                            },
                    ),
                decreases ps@.len() - i,
            {
                let p = ps[i];
                r.push(p.0);
                r.push(p.1);
                i = i + 1;
                proof {
                    assert(r@ =~= Seq::new(
                        2 * i as nat,
                        |j: int|
                            if j % 2 == 0 {
                                ps@[j / 2].0
                            } else {
                                ps@[j / 2].1
                            },
                    ));
                }
            }
        },
    }
    r
}

/// A model's colors fit its lines when the expanded buffer has one color
/// per mesh vertex, two per line.
pub open spec fn colors_fit_spec(colors: ColorSpec, n_lines: nat) -> bool {
    expanded_colors_spec(colors, n_lines).len() == 2 * n_lines
}

/// Whether the model's color specification yields exactly one color per
/// mesh vertex.
pub fn colors_fit(model: &Model) -> (r: bool)
    ensures
        r == colors_fit_spec(model.colors, model.lines@.len() as nat),
{
    match &model.colors {
        ColorSpec::Uniform(_) => true,
        ColorSpec::PerLine(cs) => cs.len() == model.lines.len(),
        ColorSpec::PerVertex(ps) => ps.len() == model.lines.len(),
    }
}

} // verus!

//! The line-model asset: color expansion and the loader's file suffix.

use emitter::color::Rgba;
use emitter::model_asset::{colors_fit, expand_colors, ColorSpec, Model, ModelLoader, VertexBits};
use emitter::pairs::flatten_pairs;

fn c(n: u32) -> Rgba {
    Rgba::new(n, n, n, n)
}

fn v(n: u32) -> VertexBits {
    VertexBits { x: n, y: n, z: n }
}

#[test]
fn uniform_colors_cover_every_vertex() {
    let colors = ColorSpec::Uniform(c(7));
    assert_eq!(expand_colors(&colors, 3), vec![c(7); 6]);
    assert_eq!(expand_colors(&colors, 0), vec![]);
}

#[test]
fn per_line_colors_double_up() {
    let colors = ColorSpec::PerLine(vec![c(1), c(2)]);
    assert_eq!(expand_colors(&colors, 2), vec![c(1), c(1), c(2), c(2)]);
}

#[test]
fn per_vertex_colors_flatten_in_order() {
    let colors = ColorSpec::PerVertex(vec![(c(1), c(2)), (c(3), c(4))]);
    assert_eq!(expand_colors(&colors, 2), vec![c(1), c(2), c(3), c(4)]);
}

#[test]
fn colors_fit_checks_the_line_count() {
    let lines = vec![(v(0), v(1)), (v(1), v(2))];
    let fits = Model { lines: lines.clone(), colors: ColorSpec::PerLine(vec![c(1), c(2)]) };
    assert!(colors_fit(&fits));
    let short = Model { lines, colors: ColorSpec::PerLine(vec![c(1)]) };
    assert!(!colors_fit(&short));
    let uniform = Model { lines: vec![], colors: ColorSpec::Uniform(c(1)) };
    assert!(colors_fit(&uniform));
}

#[test]
fn model_vertices_flatten_two_per_line() {
    let lines = vec![(v(1), v(2)), (v(3), v(4))];
    assert_eq!(flatten_pairs(&lines), vec![v(1), v(2), v(3), v(4)]);
}

#[test]
fn model_loader_extension() {
    let exts = ModelLoader.extensions();
    assert_eq!(exts, vec!["mdl.ron"]);
}

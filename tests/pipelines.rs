use nethercade::pipeline::Pipeline;
use nethercade::render_pass::quad_indices;

#[test]
fn pipeline_numbers_parse() {
    assert_eq!(Pipeline::try_from(0), Ok(Pipeline::Color));
    assert_eq!(Pipeline::try_from(3), Ok(Pipeline::Quad2d));
    assert_eq!(Pipeline::try_from(7), Ok(Pipeline::MatcapColorUv));
    assert_eq!(Pipeline::try_from(8), Err("Invalid Pipeline"));
    assert_eq!(Pipeline::try_from(-1), Err("Invalid Pipeline"));
}

#[test]
fn every_pipeline_has_positive_stride() {
    let expected = [6, 5, 8, 8, 6, 9, 8, 11];
    for (n, want) in expected.iter().enumerate() {
        let p = Pipeline::try_from(n as i32).unwrap();
        assert!(p.get_attribute_count() > 0);
        assert_eq!(p.get_attribute_count(), *want);
        assert_eq!(p.get_vertex_size(), 4 * want);
        assert_eq!(p.get_shader(), n);
    }
}

#[test]
fn pipeline_shader_names() {
    assert_eq!(Pipeline::ColorUv.name(), "color uv");
    assert_eq!(Pipeline::Quad2d.vertex_shader(), "vs_quad_2d");
    assert_eq!(Pipeline::Quad2d.fragment_shader(), "fs_uv");
    assert_eq!(Pipeline::MatcapColor.fragment_shader(), "fs_matcap_color");
}

#[test]
fn quad_is_two_triangles() {
    assert_eq!(quad_indices(), [0, 1, 2, 1, 3, 2]);
}

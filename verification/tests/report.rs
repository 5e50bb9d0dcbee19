use gl_quad::report::{get_error, Checkpoint};

#[test]
fn no_error_goes_on() {
    let report = get_error("na draw", 0);
    assert_eq!(report.line, "na draw\tno error");
    assert_eq!(report.exit, None);
}

#[test]
fn each_error_is_named_and_ends_the_process() {
    for (code, name) in [
        (0x0500, "invalid enum"),
        (0x0501, "invalid value"),
        (0x0502, "invalid operation"),
        (0x0505, "out of memory"),
        (0x0506, "invalid framebuffer operation"),
        (0x0503, "?"),
        (1, "?"),
        (u32::MAX, "?"),
    ] {
        let report = get_error("hier", code);
        assert_eq!(report.line, format!("hier\t{}", name));
        assert_eq!(report.exit, Some(1));
    }
}

#[test]
fn empty_message_is_reported() {
    assert_eq!(get_error("", 0x0500).line, "\tinvalid enum");
}

#[test]
fn checkpoints_have_their_messages() {
    for (checkpoint, message) in [
        (Checkpoint::VerticesUploaded, "na vullen van vbo, voor ebo"),
        (Checkpoint::ElementBufferBound, "na klaarzetten en binden ebo buffer"),
        (Checkpoint::IndicesUploaded, "na vullen ebo buffer"),
        (Checkpoint::PositionEnabled, "na enable position attribute in VAO"),
        (Checkpoint::ColorEnabled, "na enable color attribute in VAO"),
        (Checkpoint::DrawVertexArrayBound, "na bind vao in draw"),
        (Checkpoint::DrawVertexBufferBound, "na bind vbo in draw"),
        (Checkpoint::DrawElementBufferBound, "na bind ebo in draw"),
        (Checkpoint::Drawn, "na draw"),
    ] {
        assert_eq!(checkpoint.message(), message);
    }
}

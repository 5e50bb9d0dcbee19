use gl_quad::geometry::{BufferContents, FLOATS_PER_VERTEX, WORD_SIZE};

const VERTICES: [[f32; 6]; 4] = [
    [0.5, 0.5, 0.0, 1.0, 0.0, 0.0],
    [0.5, -0.5, 0.0, 0.0, 1.0, 0.0],
    [-0.5, -0.5, 0.0, 0.0, 0.0, 1.0],
    [-0.5, 0.5, -0.0, 0.2, 0.3, 0.4],
];

#[test]
fn vertex_words_are_the_bits_of_the_floats() {
    let words = BufferContents::Vertices.words();
    let expected: Vec<u32> = VERTICES.iter().flatten().map(|float| float.to_bits()).collect();
    assert_eq!(words, expected);
}

#[test]
fn indices_name_two_triangles_of_the_vertices() {
    let words = BufferContents::Indices.words();
    assert_eq!(words, vec![0, 1, 3, 1, 2, 3]);
    assert!(words.iter().all(|index| (*index as usize) < VERTICES.len()));
}

#[test]
fn uploads_take_one_word_for_each_entry() {
    assert_eq!(BufferContents::Vertices.upload_size(), 16);
    assert_eq!(BufferContents::Indices.upload_size(), 24);
}

#[test]
fn uploads_stay_within_the_data() {
    for contents in [BufferContents::Vertices, BufferContents::Indices] {
        let bytes = contents.words().len() * WORD_SIZE;
        assert!(contents.upload_size() as usize <= bytes);
    }
    assert_eq!(BufferContents::Vertices.words().len(), 4 * FLOATS_PER_VERTEX);
}

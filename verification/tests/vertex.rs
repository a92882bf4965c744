use cube_demo::command::{BufferUsage, Command, ElementType};
use cube_demo::vertex::{Attribute, Vertex};

fn cube_layout() -> Vec<Attribute> {
    vec![Attribute { components: 3, element: ElementType::Float }]
}

#[test]
fn element_sizes() {
    assert_eq!(ElementType::Byte.size(), 1);
    assert_eq!(ElementType::UnsignedByte.size(), 1);
    assert_eq!(ElementType::Short.size(), 2);
    assert_eq!(ElementType::UnsignedShort.size(), 2);
    assert_eq!(ElementType::Int.size(), 4);
    assert_eq!(ElementType::UnsignedInt.size(), 4);
    assert_eq!(ElementType::Float.size(), 4);
}

#[test]
fn accepts_the_cube() {
    assert!(Vertex::accepts(432, &cube_layout(), 12, 36));
}

#[test]
fn accepts_an_empty_layout_and_padding() {
    assert!(Vertex::accepts(0, &Vec::new(), 0, 0));
    assert!(Vertex::accepts(16 * 36, &cube_layout(), 16, 36));
}

#[test]
fn refuses_a_wrong_size() {
    assert!(!Vertex::accepts(431, &cube_layout(), 12, 36));
    assert!(!Vertex::accepts(432, &cube_layout(), 12, 35));
}

#[test]
fn refuses_negative_numbers() {
    assert!(!Vertex::accepts(432, &cube_layout(), -12, -36));
    assert!(!Vertex::accepts(0, &cube_layout(), -12, 0));
    assert!(!Vertex::accepts(0, &cube_layout(), 12, -1));
}

#[test]
fn refuses_attributes_beyond_the_record() {
    assert!(!Vertex::accepts(11 * 36, &cube_layout(), 11, 36));
    let big = vec![Attribute { components: u32::MAX, element: ElementType::Float }; 3];
    assert!(!Vertex::accepts(0, &big, i32::MAX, 0));
}

#[test]
fn upload_of_the_cube() {
    let (_, upload) = Vertex::new(7, 9, 432, BufferUsage::StaticDraw, cube_layout(), 12, 36);
    assert_eq!(
        upload,
        vec![
            Command::BindVertexArray(7),
            Command::BindBuffer(9),
            Command::BufferData { size: 432, usage: BufferUsage::StaticDraw },
            Command::EnableVertexAttribArray(0),
            Command::VertexAttribPointer {
                index: 0,
                components: 3,
                element: ElementType::Float,
                stride: 12,
                offset: 0,
            },
            Command::BindBuffer(0),
            Command::BindVertexArray(0),
        ]
    );
}

#[test]
fn upload_packs_attributes_in_order() {
    let layout = vec![
        Attribute { components: 3, element: ElementType::Float },
        Attribute { components: 2, element: ElementType::Short },
        Attribute { components: 4, element: ElementType::UnsignedByte },
        Attribute { components: 1, element: ElementType::Int },
    ];
    assert!(Vertex::accepts(24 * 10, &layout, 24, 10));
    let (_, commands) = Vertex::new(1, 2, 240, BufferUsage::DynamicDraw, layout.clone(), 24, 10);
    assert_eq!(commands.len(), 3 + 2 * 4 + 2);
    let offsets = [0usize, 12, 16, 20];
    for i in 0..4 {
        assert_eq!(commands[3 + 2 * i], Command::EnableVertexAttribArray(i as u32));
        assert_eq!(
            commands[4 + 2 * i],
            Command::VertexAttribPointer {
                index: i as u32,
                components: layout[i].components,
                element: layout[i].element,
                stride: 24,
                offset: offsets[i],
            }
        );
    }
    assert_eq!(commands[11], Command::BindBuffer(0));
    assert_eq!(commands[12], Command::BindVertexArray(0));
}

#[test]
fn upload_without_attributes() {
    let (_, upload) = Vertex::new(3, 4, 0, BufferUsage::StreamDraw, Vec::new(), 8, 0);
    assert_eq!(
        upload,
        vec![
            Command::BindVertexArray(3),
            Command::BindBuffer(4),
            Command::BufferData { size: 0, usage: BufferUsage::StreamDraw },
            Command::BindBuffer(0),
            Command::BindVertexArray(0),
        ]
    );
}

#[test]
fn draw_binds_draws_and_unbinds() {
    let (v, _) = Vertex::new(7, 9, 432, BufferUsage::StaticDraw, cube_layout(), 12, 36);
    assert_eq!(
        v.draw(),
        vec![
            Command::BindVertexArray(7),
            Command::DrawArrays { first: 0, count: 36 },
            Command::BindVertexArray(0),
        ]
    );
}

#[test]
fn vertex_keeps_what_it_was_given() {
    let (v, _) = Vertex::new(7, 9, 432, BufferUsage::StaticDraw, cube_layout(), 12, 36);
    assert_eq!(v.vao(), 7);
    assert_eq!(v.vbo(), 9);
    assert_eq!(v.vertex_num(), 36);
}

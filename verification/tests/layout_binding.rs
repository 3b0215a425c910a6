use azul_gl::{
    AzString, BindingStage, GlCommand, GlReply, GlReplyError, GlShader, GlStep, LayoutBinding,
    VertexAttribute, VertexAttributeType, VertexLayout,
};
use gleam::gl;

fn attribute(
    name: &str,
    layout_location: Option<usize>,
    ty: VertexAttributeType,
    item_count: usize,
) -> VertexAttribute {
    VertexAttribute {
        name: AzString::from_str(name),
        layout_location,
        attribute_type: ty,
        item_count,
    }
}

fn pointer(index: u32, size: i32, type_: u32, stride: i32, offset: u32) -> GlCommand {
    GlCommand::VertexAttribPointer { index, size, type_, normalized: false, stride, offset }
}

fn enable(index: u32) -> GlCommand {
    GlCommand::EnableVertexAttribArray { index }
}

fn run(binding: &mut LayoutBinding, replies: Vec<GlReply>) -> Vec<GlCommand> {
    match binding.advance(replies) {
        Ok(GlStep::Run(commands)) => commands,
        other => panic!("expected another batch, got {:?}", other),
    }
}

fn finish(binding: &mut LayoutBinding, replies: Vec<GlReply>) -> Vec<GlCommand> {
    match binding.advance(replies) {
        Ok(GlStep::Finish(commands, ())) => commands,
        other => panic!("expected the last batch, got {:?}", other),
    }
}

#[test]
fn fixed_locations_need_no_lookup() {
    let layout = VertexLayout {
        fields: vec![
            attribute("xy", Some(0), VertexAttributeType::Float, 2),
            attribute("rgba", Some(3), VertexAttributeType::UnsignedByte, 4),
            attribute("id", Some(1), VertexAttributeType::UnsignedInt, 1),
        ],
    };
    let shader = GlShader { program_id: 9 };
    let mut binding = layout.bind(&shader).unwrap();
    assert_eq!(binding.stage(), BindingStage::Start);
    assert_eq!(
        finish(&mut binding, vec![]),
        vec![
            pointer(0, 2, gl::FLOAT, 16, 0),
            enable(0),
            pointer(3, 4, gl::UNSIGNED_BYTE, 16, 8),
            enable(3),
            pointer(1, 1, gl::UNSIGNED_INT, 16, 12),
            enable(1),
        ]
    );
    assert_eq!(binding.stage(), BindingStage::Done);
    assert_eq!(binding.advance(vec![]).unwrap_err(), GlReplyError);
}

#[test]
fn named_attributes_are_looked_up_one_by_one() {
    let layout = VertexLayout {
        fields: vec![
            attribute("vAttrXY", None, VertexAttributeType::Float, 2),
            attribute("vColor", None, VertexAttributeType::Double, 3),
        ],
    };
    let shader = GlShader { program_id: 5 };
    let mut binding = layout.bind(&shader).unwrap();
    assert_eq!(
        run(&mut binding, vec![]),
        vec![GlCommand::GetAttribLocation { program: 5, attribute: 0 }]
    );
    assert_eq!(binding.stage(), BindingStage::AwaitLocation);
    assert_eq!(binding.fields()[0].name.as_str(), "vAttrXY");
    assert_eq!(
        run(&mut binding, vec![GlReply::Integer(4)]),
        vec![
            pointer(4, 2, gl::FLOAT, 32, 0),
            enable(4),
            GlCommand::GetAttribLocation { program: 5, attribute: 1 },
        ]
    );
    assert_eq!(binding.fields()[1].name.as_str(), "vColor");
    assert_eq!(
        finish(&mut binding, vec![GlReply::Integer(2)]),
        vec![pointer(2, 3, gl::DOUBLE, 32, 8), enable(2)]
    );
}

#[test]
fn fixed_and_named_attributes_mix() {
    let layout = VertexLayout {
        fields: vec![
            attribute("a", Some(7), VertexAttributeType::UnsignedShort, 1),
            attribute("b", None, VertexAttributeType::Float, 1),
            attribute("c", Some(8), VertexAttributeType::Float, 4),
            attribute("d", Some(9), VertexAttributeType::UnsignedByte, 2),
            attribute("e", None, VertexAttributeType::UnsignedInt, 2),
        ],
    };
    let shader = GlShader { program_id: 1 };
    let mut binding = layout.bind(&shader).unwrap();
    assert_eq!(
        run(&mut binding, vec![]),
        vec![
            pointer(7, 1, gl::UNSIGNED_SHORT, 32, 0),
            enable(7),
            GlCommand::GetAttribLocation { program: 1, attribute: 1 },
        ]
    );
    assert_eq!(
        run(&mut binding, vec![GlReply::Integer(0)]),
        vec![
            pointer(0, 1, gl::FLOAT, 32, 2),
            enable(0),
            pointer(8, 4, gl::FLOAT, 32, 6),
            enable(8),
            pointer(9, 2, gl::UNSIGNED_BYTE, 32, 22),
            enable(9),
            GlCommand::GetAttribLocation { program: 1, attribute: 4 },
        ]
    );
    assert_eq!(
        finish(&mut binding, vec![GlReply::Integer(3)]),
        vec![pointer(3, 2, gl::UNSIGNED_INT, 32, 24), enable(3)]
    );
}

#[test]
fn an_attribute_that_the_driver_does_not_know_wraps_to_the_last_index() {
    let layout =
        VertexLayout { fields: vec![attribute("gone", None, VertexAttributeType::Float, 1)] };
    let shader = GlShader { program_id: 1 };
    let mut binding = layout.bind(&shader).unwrap();
    run(&mut binding, vec![]);
    assert_eq!(
        finish(&mut binding, vec![GlReply::Integer(-1)]),
        vec![pointer(u32::MAX, 1, gl::FLOAT, 4, 0), enable(u32::MAX)]
    );
}

#[test]
fn an_empty_layout_binds_with_no_command() {
    let layout = VertexLayout { fields: vec![] };
    let shader = GlShader { program_id: 1 };
    let mut binding = layout.bind(&shader).unwrap();
    assert!(finish(&mut binding, vec![]).is_empty());
    let mut unbinding = layout.unbind(&shader);
    assert!(finish(&mut unbinding, vec![]).is_empty());
}

#[test]
fn unbinding_disables_each_attribute() {
    let layout = VertexLayout {
        fields: vec![
            attribute("a", Some(2), VertexAttributeType::Float, 2),
            attribute("b", None, VertexAttributeType::Float, 2),
            attribute("c", Some(4), VertexAttributeType::Float, 2),
        ],
    };
    let shader = GlShader { program_id: 6 };
    let mut binding = layout.unbind(&shader);
    assert_eq!(
        run(&mut binding, vec![]),
        vec![
            GlCommand::DisableVertexAttribArray { index: 2 },
            GlCommand::GetAttribLocation { program: 6, attribute: 1 },
        ]
    );
    assert_eq!(
        finish(&mut binding, vec![GlReply::Integer(11)]),
        vec![
            GlCommand::DisableVertexAttribArray { index: 11 },
            GlCommand::DisableVertexAttribArray { index: 4 },
        ]
    );
}

#[test]
fn unbinding_works_for_a_layout_too_large_to_bind() {
    let layout = VertexLayout {
        fields: vec![
            attribute("a", Some(0), VertexAttributeType::Double, usize::MAX),
            attribute("b", Some(1), VertexAttributeType::Double, usize::MAX),
        ],
    };
    let shader = GlShader { program_id: 6 };
    assert!(layout.bind(&shader).is_none());
    let mut binding = layout.unbind(&shader);
    assert_eq!(
        finish(&mut binding, vec![]),
        vec![
            GlCommand::DisableVertexAttribArray { index: 0 },
            GlCommand::DisableVertexAttribArray { index: 1 },
        ]
    );
}

#[test]
fn large_numbers_are_cut_to_the_width_of_the_call() {
    let layout = VertexLayout {
        fields: vec![
            attribute("a", Some(0x1_0000_0002), VertexAttributeType::UnsignedByte, 0x1_0000_0003),
            attribute("b", Some(5), VertexAttributeType::UnsignedByte, 1),
        ],
    };
    let shader = GlShader { program_id: 6 };
    let mut binding = layout.bind(&shader).unwrap();
    assert_eq!(
        finish(&mut binding, vec![]),
        vec![pointer(2, 3, gl::UNSIGNED_BYTE, 4, 0), enable(2), pointer(5, 1, gl::UNSIGNED_BYTE, 4, 3), enable(5)]
    );
}

#[test]
fn binding_refuses_replies_that_do_not_fit() {
    let layout =
        VertexLayout { fields: vec![attribute("a", None, VertexAttributeType::Float, 1)] };
    let shader = GlShader { program_id: 6 };
    let mut binding = layout.bind(&shader).unwrap();
    assert_eq!(binding.advance(vec![GlReply::Integer(1)]).unwrap_err(), GlReplyError);
    assert_eq!(binding.stage(), BindingStage::Start);
    run(&mut binding, vec![]);
    assert_eq!(binding.advance(vec![]).unwrap_err(), GlReplyError);
    assert_eq!(binding.advance(vec![GlReply::Name(1)]).unwrap_err(), GlReplyError);
    assert_eq!(
        binding.advance(vec![GlReply::Integer(1), GlReply::Integer(1)]).unwrap_err(),
        GlReplyError
    );
    assert_eq!(binding.stage(), BindingStage::AwaitLocation);
    assert_eq!(finish(&mut binding, vec![GlReply::Integer(1)]).len(), 2);
}

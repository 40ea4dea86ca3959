use raw_processor::error::PipelineError;
use raw_processor::shader::{Access, Shader, ShaderModule, SPIRV_MAGIC};

fn module_bytes(extra_words: &[u32]) -> Vec<u8> {
    let mut words: Vec<u32> = vec![SPIRV_MAGIC, 0x0001_0500, 0, 8, 0];
    words.extend_from_slice(extra_words);
    let mut bytes = Vec::new();
    for word in words {
        bytes.extend_from_slice(&word.to_le_bytes());
    }
    bytes
}

#[test]
fn header_alone_is_a_module() {
    let bytes = module_bytes(&[]);
    assert_eq!(bytes.len(), 20);
    let module = ShaderModule::from_bytes(Shader::Finishing1, &bytes).unwrap();
    assert_eq!(module.shader(), Shader::Finishing1);
    assert_eq!(module.words(), &vec![0x0723_0203, 0x0001_0500, 0, 8, 0]);
    assert_eq!(module.entry_point(), "main");
}

#[test]
fn words_are_read_in_little_endian_order() {
    let mut bytes = module_bytes(&[]);
    bytes.extend_from_slice(&[0x78, 0x56, 0x34, 0x12, 0xff, 0x00, 0x00, 0x80]);
    let module = ShaderModule::from_bytes(Shader::Finishing3, &bytes).unwrap();
    assert_eq!(module.words().len(), 7);
    assert_eq!(module.words()[5], 0x1234_5678);
    assert_eq!(module.words()[6], 0x8000_00ff);
    assert_eq!(&bytes[0..4], &[0x03, 0x02, 0x23, 0x07]);
    assert_eq!(module.words()[0], SPIRV_MAGIC);
}

#[test]
fn length_must_be_whole_words() {
    for extra in 1..4 {
        let mut bytes = module_bytes(&[1, 2, 3]);
        for _ in 0..extra {
            bytes.push(0);
        }
        assert_eq!(
            ShaderModule::from_bytes(Shader::Finishing2, &bytes).err(),
            Some(PipelineError::ShaderLoadFailure)
        );
    }
}

#[test]
fn header_must_be_complete() {
    let bytes = module_bytes(&[]);
    assert_eq!(
        ShaderModule::from_bytes(Shader::Finishing1, &bytes[..16]).err(),
        Some(PipelineError::ShaderLoadFailure)
    );
    assert_eq!(
        ShaderModule::from_bytes(Shader::Finishing1, &[]).err(),
        Some(PipelineError::ShaderLoadFailure)
    );
}

#[test]
fn magic_number_must_lead() {
    let mut bytes = module_bytes(&[7]);
    bytes[0] = 0x04;
    assert_eq!(
        ShaderModule::from_bytes(Shader::Finishing4, &bytes).err(),
        Some(PipelineError::ShaderLoadFailure)
    );
    let mut swapped = module_bytes(&[7]);
    swapped[0..4].copy_from_slice(&[0x07, 0x23, 0x02, 0x03]);
    assert_eq!(
        ShaderModule::from_bytes(Shader::Finishing4, &swapped).err(),
        Some(PipelineError::ShaderLoadFailure)
    );
}

#[test]
fn shaders_are_named_by_stage() {
    assert_eq!(Shader::Finishing1.name(), "finishing_1");
    assert_eq!(Shader::Finishing2.name(), "finishing_2");
    assert_eq!(Shader::Finishing3.name(), "finishing_3");
    assert_eq!(Shader::Finishing4.name(), "finishing_4");
    assert_eq!(Shader::Finishing1.index(), 0);
    assert_eq!(Shader::Finishing2.index(), 1);
    assert_eq!(Shader::Finishing3.index(), 2);
    assert_eq!(Shader::Finishing4.index(), 3);
}

#[test]
fn shaders_declare_their_bindings() {
    assert_eq!(Shader::Finishing1.binding_count(), 2);
    assert_eq!(Shader::Finishing2.binding_count(), 2);
    assert_eq!(Shader::Finishing3.binding_count(), 1);
    assert_eq!(Shader::Finishing4.binding_count(), 2);
    assert_eq!(Shader::Finishing1.access(0), Access::Read);
    assert_eq!(Shader::Finishing1.access(1), Access::Write);
    assert_eq!(Shader::Finishing2.access(0), Access::Read);
    assert_eq!(Shader::Finishing2.access(1), Access::Write);
    assert_eq!(Shader::Finishing3.access(0), Access::ReadWrite);
    assert_eq!(Shader::Finishing4.access(0), Access::Read);
    assert_eq!(Shader::Finishing4.access(1), Access::Write);
}

#[test]
fn every_shader_works_on_tiles_of_eight() {
    assert_eq!(Shader::Finishing1.tile(), 8);
    assert_eq!(Shader::Finishing2.tile(), 8);
    assert_eq!(Shader::Finishing3.tile(), 8);
    assert_eq!(Shader::Finishing4.tile(), 8);
}

#[test]
fn access_is_defined_for_every_slot() {
    assert_eq!(Shader::Finishing1.access(2), Access::Write);
    assert_eq!(Shader::Finishing3.access(1), Access::ReadWrite);
    assert_eq!(Shader::Finishing4.access(u32::MAX), Access::Write);
}

use pulsar::shaders::{Shader, ShaderError, ShaderStage, SPIRV_MAGIC};

const LITTLE: [u8; 12] = [0x03, 0x02, 0x23, 0x07, 0x00, 0x00, 0x01, 0x00, 0x78, 0x56, 0x34, 0x12];
const BIG: [u8; 12] = [0x07, 0x23, 0x02, 0x03, 0x00, 0x01, 0x00, 0x00, 0x12, 0x34, 0x56, 0x78];

#[test]
fn shader_path_follows_the_convention() {
    assert_eq!(Shader::path("vert"), "assets/bin/vert.spv");
    assert_eq!(Shader::path("frag"), "assets/bin/frag.spv");
    assert_eq!(Shader::path(""), "assets/bin/.spv");
}

#[test]
fn little_endian_code_is_decoded() {
    assert_eq!(Shader::decode(&LITTLE), Ok(vec![SPIRV_MAGIC, 0x0001_0000, 0x1234_5678]));
}

#[test]
fn big_endian_code_is_decoded() {
    assert_eq!(Shader::decode(&BIG), Ok(vec![SPIRV_MAGIC, 0x0001_0000, 0x1234_5678]));
}

#[test]
fn the_magic_number_alone_is_a_module() {
    assert_eq!(Shader::decode(&LITTLE[..4]), Ok(vec![0x0723_0203]));
}

#[test]
fn code_of_bad_length_is_refused() {
    assert_eq!(Shader::decode(&[]), Err(ShaderError::BadLength));
    assert_eq!(Shader::decode(&LITTLE[..3]), Err(ShaderError::BadLength));
    assert_eq!(Shader::decode(&LITTLE[..5]), Err(ShaderError::BadLength));
    assert_eq!(Shader::decode(&LITTLE[..11]), Err(ShaderError::BadLength));
}

#[test]
fn code_without_magic_number_is_refused() {
    assert_eq!(Shader::decode(&[0, 0, 0, 0]), Err(ShaderError::MissingMagic));
    assert_eq!(Shader::decode(&LITTLE[4..]), Err(ShaderError::MissingMagic));
    assert_eq!(Shader::decode(&[0x03, 0x02, 0x23, 0x08]), Err(ShaderError::MissingMagic));
    assert_eq!(Shader::decode(&[0x02, 0x03, 0x07, 0x23]), Err(ShaderError::MissingMagic));
}

#[test]
fn shader_from_the_contents_of_its_file() {
    let shader = Shader::from_filename("vert", ShaderStage::Vertex, Some(&LITTLE)).unwrap();
    assert_eq!(shader.path, "assets/bin/vert.spv");
    assert_eq!(shader.stage, ShaderStage::Vertex);
    assert_eq!(shader.code, vec![SPIRV_MAGIC, 0x0001_0000, 0x1234_5678]);
    let shader = Shader::from_filename("frag", ShaderStage::Fragment, Some(&BIG)).unwrap();
    assert_eq!(shader.stage, ShaderStage::Fragment);
    assert_eq!(shader.code, vec![SPIRV_MAGIC, 0x0001_0000, 0x1234_5678]);
}

#[test]
fn missing_shader_file_is_an_error() {
    assert_eq!(
        Shader::from_filename("vert", ShaderStage::Vertex, None),
        Err(ShaderError::NotCompiled)
    );
}

#[test]
fn broken_shader_file_is_an_error() {
    assert_eq!(
        Shader::from_filename("vert", ShaderStage::Vertex, Some(&LITTLE[..6])),
        Err(ShaderError::BadLength)
    );
    assert_eq!(
        Shader::from_filename("vert", ShaderStage::Vertex, Some(&[1, 2, 3, 4])),
        Err(ShaderError::MissingMagic)
    );
}

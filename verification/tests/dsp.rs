use snes_apu::dsp::{
    Dsp, ECHO_DELAY, ECHO_ENABLE, ECHO_FEEDBACK, ECHO_START, ECHO_VOLUME_LEFT, ECHO_VOLUME_RIGHT,
    FIR_TAP, FLAGS, KEY_OFF, KEY_ON, MASTER_VOLUME_LEFT, MASTER_VOLUME_RIGHT, NOISE_ENABLE,
    NUM_REGISTERS, NUM_VOICES, PITCH_MODULATION, SOURCE_DIRECTORY,
};
use snes_apu::memory::Memory;
use snes_apu::rate_table::next_counter;
use snes_apu::voice::Voice;

fn sample_memory() -> Memory {
    let mut memory = Memory::new();
    memory.load(0x0300, &[0x00, 0x10, 0x09, 0x10, 0x00, 0x20, 0x00, 0x20]);
    memory.load(0x1000, &[0xb0, 0x12, 0x34, 0x56, 0x77, 0xfe, 0xdc, 0xba, 0x98]);
    memory.load(0x1009, &[0xa7, 0x31, 0x7f, 0x22, 0x9c, 0x01, 0xd4, 0x55, 0xe8]);
    memory.load(0x2000, &[0xc3, 0x7f, 0x7f, 0x7f, 0x7f, 0x88, 0x88, 0x88, 0x88]);
    memory
}

fn render_frames(dsp: &mut Dsp, memory: &mut Memory, frames: usize) -> Vec<(i16, i16)> {
    let mut rendered = Vec::new();
    for _ in 0..frames {
        rendered.push(dsp.render_frame(memory));
    }
    rendered
}

#[test]
fn register_addresses_follow_the_processor_layout() {
    assert_eq!(MASTER_VOLUME_LEFT, 0x0c);
    assert_eq!(MASTER_VOLUME_RIGHT, 0x1c);
    assert_eq!(ECHO_VOLUME_LEFT, 0x2c);
    assert_eq!(ECHO_VOLUME_RIGHT, 0x3c);
    assert_eq!(KEY_ON, 0x4c);
    assert_eq!(KEY_OFF, 0x5c);
    assert_eq!(FLAGS, 0x6c);
    assert_eq!(ECHO_FEEDBACK, 0x0d);
    assert_eq!(PITCH_MODULATION, 0x2d);
    assert_eq!(NOISE_ENABLE, 0x3d);
    assert_eq!(ECHO_ENABLE, 0x4d);
    assert_eq!(SOURCE_DIRECTORY, 0x5d);
    assert_eq!(ECHO_START, 0x6d);
    assert_eq!(ECHO_DELAY, 0x7d);
    assert_eq!(FIR_TAP, 0x0f);
    assert_eq!(NUM_VOICES, 8);
    assert_eq!(NUM_REGISTERS, 128);
}

#[test]
fn new_mixer_is_silent() {
    let mut memory = sample_memory();
    let mut dsp = Dsp::new();
    for address in 0..128u8 {
        assert_eq!(dsp.get_register(address), 0);
    }
    assert_eq!(render_frames(&mut dsp, &mut memory, 8), vec![(0, 0), (0, 0), (0, 0), (0, 0), (0, 0), (0, 0), (0, 0), (0, 0)]);
    assert_eq!(memory.read_byte(0x0000), 0x00);
    assert_eq!(memory.read_byte(0x0001), 0x00);
    assert_eq!(memory.read_byte(0x0002), 0x00);
    assert_eq!(memory.read_byte(0x0003), 0x00);
}

#[test]
fn mixer_registers_read_back_what_was_written() {
    let memory = Memory::new();
    let mut dsp = Dsp::new();
    for address in 0..128u8 {
        if address != KEY_ON && address & 0x0f != 0x08 {
            dsp.set_register(&memory, address, address ^ 0x5a);
        }
    }
    for address in 0..128u8 {
        if address != KEY_ON && address & 0x0f != 0x08 {
            assert_eq!(dsp.get_register(address), address ^ 0x5a, "register {:#x}", address);
            assert_eq!(dsp.get_register(address | 0x80), address ^ 0x5a);
        }
    }
    dsp.set_register(&memory, 0x80 | MASTER_VOLUME_LEFT, 0x11);
    assert_eq!(dsp.get_register(MASTER_VOLUME_LEFT), 0x11);
}

#[test]
fn register_8_of_a_voice_reads_its_envelope_level() {
    let mut memory = sample_memory();
    let mut dsp = Dsp::new();
    dsp.set_register(&memory, 0x5d, 0x03);
    dsp.set_register(&memory, 0x6c, 0x20);
    dsp.set_register(&memory, 0x20, 0x7f);
    dsp.set_register(&memory, 0x21, 0x7f);
    dsp.set_register(&memory, 0x22, 0x00);
    dsp.set_register(&memory, 0x23, 0x10);
    dsp.set_register(&memory, 0x24, 0x00);
    dsp.set_register(&memory, 0x25, 0x00);
    dsp.set_register(&memory, 0x26, 0x00);
    dsp.set_register(&memory, 0x27, 0x5a);
    dsp.set_register(&memory, 0x28, 0x33);
    assert_eq!(dsp.get_register(0x28), 0x00);
    dsp.set_register(&memory, 0x4c, 0x04);
    assert_eq!(dsp.get_register(0x28), 0x00);
    render_frames(&mut dsp, &mut memory, 1);
    assert_eq!(dsp.get_register(0x28), 0x5a);
    assert_eq!(dsp.get_register(0x08), 0x00);
    assert_eq!(dsp.get_register(0x18), 0x00);
    dsp.set_register(&memory, 0x5c, 0x04);
    render_frames(&mut dsp, &mut memory, 3);
    assert_eq!(dsp.get_register(0x28), 0x58);
}

#[test]
fn one_voice_at_master_volume() {
    let mut memory = sample_memory();
    let mut dsp = Dsp::new();
    dsp.set_register(&memory, 0x5d, 0x03);
    dsp.set_register(&memory, 0x6c, 0x20);
    dsp.set_register(&memory, 0x0c, 0x7f);
    dsp.set_register(&memory, 0x1c, 0xc0);
    dsp.set_register(&memory, 0x00, 0x7f);
    dsp.set_register(&memory, 0x01, 0x40);
    dsp.set_register(&memory, 0x02, 0x00);
    dsp.set_register(&memory, 0x03, 0x10);
    dsp.set_register(&memory, 0x04, 0x00);
    dsp.set_register(&memory, 0x05, 0xff);
    dsp.set_register(&memory, 0x06, 0xe0);
    dsp.set_register(&memory, 0x07, 0x00);
    dsp.set_register(&memory, 0x4c, 0x01);
    assert_eq!(render_frames(&mut dsp, &mut memory, 40), vec![(0, 0), (2014, -512), (4030, -1024), (6044, -1535), (8060, -2047), (10074, -2559), (12090, -3071), (14104, -3582), (14104, -3582), (-2017, 512), (-4032, 1023), (-6048, 1535), (-8062, 2047), (-10078, 2559), (-12092, 3070), (-14108, 3582), (-16123, 4094), (-12092, 3070), (-10330, 2623), (-2632, 668), (-3476, 882), (-1244, 315), (848, -216), (-6258, 1589), (-9899, 2513), (-9280, 2356), (-7695, 1954), (-10237, 2599), (-5567, 1413), (-182, 46), (4864, -1236), (2544, -647), (-5675, 1441), (-2298, 583), (-1148, 291), (5974, -1518), (4592, -1167), (6321, -1606), (7941, -2017), (388, -99)]);
}

#[test]
fn second_voice_is_modulated_by_the_first_voice_in_the_same_frame() {
    let mut memory = sample_memory();
    let mut dsp = Dsp::new();
    dsp.set_register(&memory, 0x5d, 0x03);
    dsp.set_register(&memory, 0x6c, 0x20);
    dsp.set_register(&memory, 0x0c, 0x7f);
    dsp.set_register(&memory, 0x1c, 0x7f);
    dsp.set_register(&memory, 0x00, 0x00);
    dsp.set_register(&memory, 0x01, 0x00);
    dsp.set_register(&memory, 0x02, 0x00);
    dsp.set_register(&memory, 0x03, 0x10);
    dsp.set_register(&memory, 0x04, 0x01);
    dsp.set_register(&memory, 0x05, 0x00);
    dsp.set_register(&memory, 0x06, 0x00);
    dsp.set_register(&memory, 0x07, 0x7f);
    dsp.set_register(&memory, 0x10, 0x7f);
    dsp.set_register(&memory, 0x11, 0x7f);
    dsp.set_register(&memory, 0x12, 0x00);
    dsp.set_register(&memory, 0x13, 0x08);
    dsp.set_register(&memory, 0x14, 0x00);
    dsp.set_register(&memory, 0x15, 0x00);
    dsp.set_register(&memory, 0x16, 0x00);
    dsp.set_register(&memory, 0x17, 0x7f);
    dsp.set_register(&memory, 0x2d, 0x02);
    dsp.set_register(&memory, 0x4c, 0x03);
    assert_eq!(render_frames(&mut dsp, &mut memory, 48), vec![(0, 0), (1000, 1000), (2866, 2866), (3744, 3744), (5610, 5610), (6488, 6488), (8355, 8355), (9233, 9233), (11099, 11099), (11977, 11977), (11985, 11985), (11993, 11993), (12001, 12001), (12007, 12007), (12015, 12015), (12023, 12023), (12031, 12031), (12039, 12039), (13907, 13907), (14001, 14001), (8788, 8788), (1778, 1778), (-3400, -3400), (-4274, -4274), (-6144, -6144), (-7018, -7018), (-7026, -7026), (-7034, -7034), (-7042, -7042), (-7050, -7050), (-7057, -7057), (-7065, -7065), (-7073, -7073), (-7081, -7081), (-8951, -8951), (-9826, -9826), (-11696, -11696), (-12571, -12571), (-14441, -14441), (-15315, -15315), (-13647, -13647), (-11958, -11958), (-11950, -11950), (-11944, -11944), (-11937, -11937), (-11931, -11931), (-11923, -11923), (-11917, -11917)]);
}

fn modulated_pair(memory: &Memory, use_current_frame: bool) -> Vec<(i32, i32)> {
    let mut first = Voice::new();
    first.write_register(3, 0x10);
    first.write_register(4, 1);
    first.write_register(7, 0x7f);
    first.key_on(memory, 0x03);
    let mut second = Voice::new();
    second.write_register(0, 0x7f);
    second.write_register(1, 0x7f);
    second.write_register(3, 0x08);
    second.write_register(7, 0x7f);
    second.set_pitch_mod(true);
    second.key_on(memory, 0x03);
    let mut counter = 0u16;
    let mut previous = 0;
    let mut outputs = Vec::new();
    for _ in 0..48 {
        counter = next_counter(counter);
        let modulator = first.render_sample(memory, 0x03, counter, 0, 0x4000);
        let input = if use_current_frame {
            modulator.last_voice_out
        } else {
            previous
        };
        let output = second.render_sample(memory, 0x03, counter, input, 0x4000);
        previous = modulator.last_voice_out;
        outputs.push((output.left_out, output.right_out));
    }
    outputs
}

#[test]
fn mixer_hands_each_voice_the_current_output_of_the_voice_before_it() {
    let mut memory = sample_memory();
    let mut dsp = Dsp::new();
    dsp.set_register(&memory, 0x5d, 0x03);
    dsp.set_register(&memory, 0x6c, 0x20);
    dsp.set_register(&memory, 0x0c, 0x7f);
    dsp.set_register(&memory, 0x1c, 0x7f);
    dsp.set_register(&memory, 0x00, 0x00);
    dsp.set_register(&memory, 0x01, 0x00);
    dsp.set_register(&memory, 0x02, 0x00);
    dsp.set_register(&memory, 0x03, 0x10);
    dsp.set_register(&memory, 0x04, 0x01);
    dsp.set_register(&memory, 0x05, 0x00);
    dsp.set_register(&memory, 0x06, 0x00);
    dsp.set_register(&memory, 0x07, 0x7f);
    dsp.set_register(&memory, 0x10, 0x7f);
    dsp.set_register(&memory, 0x11, 0x7f);
    dsp.set_register(&memory, 0x12, 0x00);
    dsp.set_register(&memory, 0x13, 0x08);
    dsp.set_register(&memory, 0x14, 0x00);
    dsp.set_register(&memory, 0x15, 0x00);
    dsp.set_register(&memory, 0x16, 0x00);
    dsp.set_register(&memory, 0x17, 0x7f);
    dsp.set_register(&memory, 0x2d, 0x02);
    dsp.set_register(&memory, 0x4c, 0x03);
    let frames = render_frames(&mut dsp, &mut memory, 48);
    let current = modulated_pair(&memory, true);
    let stale = modulated_pair(&memory, false);
    assert_ne!(current, stale);
    assert_eq!(current, vec![(0, 0), (1008, 1008), (2889, 2889), (3774, 3774), (5655, 5655), (6540, 6540), (8421, 8421), (9306, 9306), (11187, 11187), (12072, 12072), (12080, 12080), (12088, 12088), (12096, 12096), (12102, 12102), (12110, 12110), (12118, 12118), (12126, 12126), (12134, 12134), (14017, 14017), (14112, 14112), (8858, 8858), (1793, 1793), (-3426, -3426), (-4307, -4307), (-6192, -6192), (-7073, -7073), (-7081, -7081), (-7089, -7089), (-7097, -7097), (-7105, -7105), (-7112, -7112), (-7120, -7120), (-7128, -7128), (-7136, -7136), (-9021, -9021), (-9903, -9903), (-11788, -11788), (-12669, -12669), (-14554, -14554), (-15435, -15435), (-13754, -13754), (-12052, -12052), (-12044, -12044), (-12038, -12038), (-12030, -12030), (-12024, -12024), (-12016, -12016), (-12010, -12010)]);
    assert_eq!(stale, vec![(0, 0), (1008, 1008), (2016, 2016), (3897, 3897), (4782, 4782), (6663, 6663), (7548, 7548), (9429, 9429), (10314, 10314), (12195, 12195), (13081, 13081), (13088, 13088), (13096, 13096), (13104, 13104), (13110, 13110), (13118, 13118), (13126, 13126), (13134, 13134), (13142, 13142), (14112, 14112), (14112, 14112), (793, 793), (-2548, -2548), (-4434, -4434), (-5315, -5315), (-7200, -7200), (-8081, -8081), (-8089, -8089), (-8097, -8097), (-8105, -8105), (-8113, -8113), (-8121, -8121), (-8128, -8128), (-8136, -8136), (-8144, -8144), (-10030, -10030), (-10911, -10911), (-12796, -12796), (-13677, -13677), (-15562, -15562), (-15504, -15504), (-11940, -11940), (-11169, -11169), (-11161, -11161), (-11155, -11155), (-11147, -11147), (-11141, -11141), (-11133, -11133)]);
    for (frame, voice) in frames.iter().zip(current.iter()) {
        assert_eq!(frame.0 as i32, (voice.0 * 0x7f) >> 7);
        assert_eq!(frame.1 as i32, (voice.1 * 0x7f) >> 7);
    }
}

#[test]
fn key_masks_reach_the_voices_whose_bits_are_set() {
    let mut memory = sample_memory();
    let mut dsp = Dsp::new();
    dsp.set_register(&memory, 0x5d, 0x03);
    dsp.set_register(&memory, 0x6c, 0x20);
    dsp.set_register(&memory, 0x07, 0x10);
    dsp.set_register(&memory, 0x17, 0x11);
    dsp.set_register(&memory, 0x27, 0x12);
    dsp.set_register(&memory, 0x37, 0x13);
    dsp.set_register(&memory, 0x47, 0x14);
    dsp.set_register(&memory, 0x57, 0x15);
    dsp.set_register(&memory, 0x67, 0x16);
    dsp.set_register(&memory, 0x77, 0x17);
    dsp.set_register(&memory, 0x4c, 0xa5);
    render_frames(&mut dsp, &mut memory, 1);
    assert_eq!(dsp.get_register(0x08), 0x10);
    assert_eq!(dsp.get_register(0x18), 0x00);
    assert_eq!(dsp.get_register(0x28), 0x12);
    assert_eq!(dsp.get_register(0x38), 0x00);
    assert_eq!(dsp.get_register(0x48), 0x00);
    assert_eq!(dsp.get_register(0x58), 0x15);
    assert_eq!(dsp.get_register(0x68), 0x00);
    assert_eq!(dsp.get_register(0x78), 0x17);
    dsp.set_register(&memory, 0x5c, 0x81);
    render_frames(&mut dsp, &mut memory, 2);
    assert_eq!(dsp.get_register(0x08), 0x0f);
    assert_eq!(dsp.get_register(0x18), 0x00);
    assert_eq!(dsp.get_register(0x28), 0x12);
    assert_eq!(dsp.get_register(0x38), 0x00);
    assert_eq!(dsp.get_register(0x48), 0x00);
    assert_eq!(dsp.get_register(0x58), 0x15);
    assert_eq!(dsp.get_register(0x68), 0x00);
    assert_eq!(dsp.get_register(0x78), 0x16);
}

#[test]
fn noise_generator_steps_at_the_rate_in_the_flags() {
    let mut memory = sample_memory();
    let mut dsp = Dsp::new();
    dsp.set_register(&memory, 0x5d, 0x03);
    dsp.set_register(&memory, 0x6c, 0x3f);
    dsp.set_register(&memory, 0x0c, 0x7f);
    dsp.set_register(&memory, 0x1c, 0x7f);
    dsp.set_register(&memory, 0x30, 0x20);
    dsp.set_register(&memory, 0x31, 0x10);
    dsp.set_register(&memory, 0x32, 0x00);
    dsp.set_register(&memory, 0x33, 0x10);
    dsp.set_register(&memory, 0x34, 0x00);
    dsp.set_register(&memory, 0x35, 0x00);
    dsp.set_register(&memory, 0x36, 0x00);
    dsp.set_register(&memory, 0x37, 0x7f);
    dsp.set_register(&memory, 0x3d, 0x08);
    dsp.set_register(&memory, 0x4c, 0x08);
    assert_eq!(render_frames(&mut dsp, &mut memory, 24), vec![(4032, 2016), (2016, 1008), (1008, 504), (504, 252), (252, 126), (126, 62), (62, 30), (30, 14), (14, 6), (6, 2), (2, 0), (0, 0), (0, 0), (-8065, -4033), (-4033, -2017), (6048, 3024), (3024, 1512), (1512, 756), (756, 378), (378, 188), (188, 94), (94, 46), (46, 22), (22, 10)]);
}

#[test]
fn slower_noise_rate_holds_each_value_for_its_period() {
    let mut memory = sample_memory();
    let mut dsp = Dsp::new();
    dsp.set_register(&memory, 0x5d, 0x03);
    dsp.set_register(&memory, 0x6c, 0x3d);
    dsp.set_register(&memory, 0x0c, 0x7f);
    dsp.set_register(&memory, 0x1c, 0x7f);
    dsp.set_register(&memory, 0x00, 0x20);
    dsp.set_register(&memory, 0x01, 0x20);
    dsp.set_register(&memory, 0x02, 0x00);
    dsp.set_register(&memory, 0x03, 0x10);
    dsp.set_register(&memory, 0x04, 0x00);
    dsp.set_register(&memory, 0x05, 0x00);
    dsp.set_register(&memory, 0x06, 0x00);
    dsp.set_register(&memory, 0x07, 0x7f);
    dsp.set_register(&memory, 0x3d, 0x01);
    dsp.set_register(&memory, 0x4c, 0x01);
    assert_eq!(render_frames(&mut dsp, &mut memory, 16), vec![(-8065, -8065), (4032, 4032), (4032, 4032), (4032, 4032), (2016, 2016), (2016, 2016), (2016, 2016), (1008, 1008), (1008, 1008), (1008, 1008), (504, 504), (504, 504), (504, 504), (252, 252), (252, 252), (252, 252)]);
}

#[test]
fn noise_rate_0_never_steps_the_generator() {
    let mut memory = sample_memory();
    let mut dsp = Dsp::new();
    dsp.set_register(&memory, 0x5d, 0x03);
    dsp.set_register(&memory, 0x6c, 0x20);
    dsp.set_register(&memory, 0x0c, 0x7f);
    dsp.set_register(&memory, 0x1c, 0x7f);
    dsp.set_register(&memory, 0x00, 0x20);
    dsp.set_register(&memory, 0x01, 0x20);
    dsp.set_register(&memory, 0x02, 0x00);
    dsp.set_register(&memory, 0x03, 0x10);
    dsp.set_register(&memory, 0x04, 0x00);
    dsp.set_register(&memory, 0x05, 0x00);
    dsp.set_register(&memory, 0x06, 0x00);
    dsp.set_register(&memory, 0x07, 0x7f);
    dsp.set_register(&memory, 0x3d, 0x01);
    dsp.set_register(&memory, 0x4c, 0x01);
    assert_eq!(render_frames(&mut dsp, &mut memory, 6), vec![(-8065, -8065), (-8065, -8065), (-8065, -8065), (-8065, -8065), (-8065, -8065), (-8065, -8065)]);
}

#[test]
fn mute_flag_silences_the_output_but_not_the_voices() {
    let mut memory = sample_memory();
    let mut dsp = Dsp::new();
    dsp.set_register(&memory, 0x5d, 0x03);
    dsp.set_register(&memory, 0x6c, 0x60);
    dsp.set_register(&memory, 0x0c, 0x7f);
    dsp.set_register(&memory, 0x1c, 0x7f);
    dsp.set_register(&memory, 0x00, 0x7f);
    dsp.set_register(&memory, 0x01, 0x7f);
    dsp.set_register(&memory, 0x02, 0x00);
    dsp.set_register(&memory, 0x03, 0x10);
    dsp.set_register(&memory, 0x04, 0x00);
    dsp.set_register(&memory, 0x05, 0x00);
    dsp.set_register(&memory, 0x06, 0x00);
    dsp.set_register(&memory, 0x07, 0x7f);
    dsp.set_register(&memory, 0x4c, 0x01);
    assert_eq!(render_frames(&mut dsp, &mut memory, 5), vec![(0, 0), (0, 0), (0, 0), (0, 0), (0, 0)]);
    dsp.set_register(&memory, 0x6c, 0x20);
    assert_eq!(render_frames(&mut dsp, &mut memory, 5), vec![(10001, 10001), (12001, 12001), (14001, 14001), (14001, 14001), (-2002, -2002)]);
}

#[test]
fn mix_of_loud_voices_is_clamped() {
    let mut memory = sample_memory();
    let mut dsp = Dsp::new();
    dsp.set_register(&memory, 0x5d, 0x03);
    dsp.set_register(&memory, 0x6c, 0x20);
    dsp.set_register(&memory, 0x0c, 0x7f);
    dsp.set_register(&memory, 0x1c, 0x80);
    dsp.set_register(&memory, 0x00, 0x7f);
    dsp.set_register(&memory, 0x01, 0x7f);
    dsp.set_register(&memory, 0x02, 0x00);
    dsp.set_register(&memory, 0x03, 0x10);
    dsp.set_register(&memory, 0x04, 0x01);
    dsp.set_register(&memory, 0x05, 0x00);
    dsp.set_register(&memory, 0x06, 0x00);
    dsp.set_register(&memory, 0x07, 0x7f);
    dsp.set_register(&memory, 0x10, 0x7f);
    dsp.set_register(&memory, 0x11, 0x80);
    dsp.set_register(&memory, 0x12, 0x00);
    dsp.set_register(&memory, 0x13, 0x10);
    dsp.set_register(&memory, 0x14, 0x01);
    dsp.set_register(&memory, 0x15, 0x00);
    dsp.set_register(&memory, 0x16, 0x00);
    dsp.set_register(&memory, 0x17, 0x7f);
    dsp.set_register(&memory, 0x20, 0x7f);
    dsp.set_register(&memory, 0x21, 0x7f);
    dsp.set_register(&memory, 0x22, 0x00);
    dsp.set_register(&memory, 0x23, 0x10);
    dsp.set_register(&memory, 0x24, 0x01);
    dsp.set_register(&memory, 0x25, 0x00);
    dsp.set_register(&memory, 0x26, 0x00);
    dsp.set_register(&memory, 0x27, 0x7f);
    dsp.set_register(&memory, 0x30, 0x7f);
    dsp.set_register(&memory, 0x31, 0x80);
    dsp.set_register(&memory, 0x32, 0x00);
    dsp.set_register(&memory, 0x33, 0x10);
    dsp.set_register(&memory, 0x34, 0x01);
    dsp.set_register(&memory, 0x35, 0x00);
    dsp.set_register(&memory, 0x36, 0x00);
    dsp.set_register(&memory, 0x37, 0x7f);
    dsp.set_register(&memory, 0x40, 0x7f);
    dsp.set_register(&memory, 0x41, 0x7f);
    dsp.set_register(&memory, 0x42, 0x00);
    dsp.set_register(&memory, 0x43, 0x10);
    dsp.set_register(&memory, 0x44, 0x01);
    dsp.set_register(&memory, 0x45, 0x00);
    dsp.set_register(&memory, 0x46, 0x00);
    dsp.set_register(&memory, 0x47, 0x7f);
    dsp.set_register(&memory, 0x50, 0x7f);
    dsp.set_register(&memory, 0x51, 0x80);
    dsp.set_register(&memory, 0x52, 0x00);
    dsp.set_register(&memory, 0x53, 0x10);
    dsp.set_register(&memory, 0x54, 0x01);
    dsp.set_register(&memory, 0x55, 0x00);
    dsp.set_register(&memory, 0x56, 0x00);
    dsp.set_register(&memory, 0x57, 0x7f);
    dsp.set_register(&memory, 0x60, 0x7f);
    dsp.set_register(&memory, 0x61, 0x7f);
    dsp.set_register(&memory, 0x62, 0x00);
    dsp.set_register(&memory, 0x63, 0x10);
    dsp.set_register(&memory, 0x64, 0x01);
    dsp.set_register(&memory, 0x65, 0x00);
    dsp.set_register(&memory, 0x66, 0x00);
    dsp.set_register(&memory, 0x67, 0x7f);
    dsp.set_register(&memory, 0x70, 0x7f);
    dsp.set_register(&memory, 0x71, 0x80);
    dsp.set_register(&memory, 0x72, 0x00);
    dsp.set_register(&memory, 0x73, 0x10);
    dsp.set_register(&memory, 0x74, 0x01);
    dsp.set_register(&memory, 0x75, 0x00);
    dsp.set_register(&memory, 0x76, 0x00);
    dsp.set_register(&memory, 0x77, 0x7f);
    dsp.set_register(&memory, 0x4c, 0xff);
    assert_eq!(render_frames(&mut dsp, &mut memory, 36), vec![(0, 0), (32511, 892), (-32012, -124), (32511, 892), (-32012, -124), (32511, 892), (-32012, -124), (32511, 892), (-32012, -124), (-32512, -1016), (-32512, -1016), (-32512, -1016), (-32512, -1016), (-32512, -1016), (-32512, -1016), (-32512, -1016), (-32512, -1016), (32511, 892), (-32012, -124), (32511, 892), (-32012, -124), (32511, 892), (-32012, -124), (32511, 892), (-32012, -124), (-32512, -1016), (-32512, -1016), (-32512, -1016), (-32512, -1016), (-32512, -1016), (-32512, -1016), (-32512, -1016), (-32512, -1016), (32511, 892), (-32012, -124), (32511, 892)]);
}

#[test]
fn echo_comes_back_after_the_delay() {
    let mut memory = sample_memory();
    let mut dsp = Dsp::new();
    dsp.set_register(&memory, 0x5d, 0x03);
    dsp.set_register(&memory, 0x6c, 0x00);
    dsp.set_register(&memory, 0x0c, 0x7f);
    dsp.set_register(&memory, 0x1c, 0x7f);
    dsp.set_register(&memory, 0x6d, 0x40);
    dsp.set_register(&memory, 0x7d, 0x01);
    dsp.set_register(&memory, 0x0d, 0x50);
    dsp.set_register(&memory, 0x2c, 0x60);
    dsp.set_register(&memory, 0x3c, 0xa0);
    dsp.set_register(&memory, 0x7f, 0x7f);
    dsp.set_register(&memory, 0x6f, 0x20);
    dsp.set_register(&memory, 0x0f, 0xf0);
    dsp.set_register(&memory, 0x00, 0x7f);
    dsp.set_register(&memory, 0x01, 0x30);
    dsp.set_register(&memory, 0x02, 0x00);
    dsp.set_register(&memory, 0x03, 0x10);
    dsp.set_register(&memory, 0x04, 0x00);
    dsp.set_register(&memory, 0x05, 0x00);
    dsp.set_register(&memory, 0x06, 0x00);
    dsp.set_register(&memory, 0x07, 0x7f);
    dsp.set_register(&memory, 0x10, 0x10);
    dsp.set_register(&memory, 0x11, 0x7f);
    dsp.set_register(&memory, 0x12, 0x00);
    dsp.set_register(&memory, 0x13, 0x0c);
    dsp.set_register(&memory, 0x14, 0x01);
    dsp.set_register(&memory, 0x15, 0x00);
    dsp.set_register(&memory, 0x16, 0x00);
    dsp.set_register(&memory, 0x17, 0x30);
    dsp.set_register(&memory, 0x4d, 0x01);
    dsp.set_register(&memory, 0x4c, 0x03);
    assert_eq!(render_frames(&mut dsp, &mut memory, 6), vec![(0, 0), (3000, 8694), (4572, 6048), (6191, 3780), (9334, 13608), (10191, 5292)]);
    assert_eq!(memory.read_byte(0x4000), 0x00);
    assert_eq!(memory.read_byte(0x4001), 0x00);
    assert_eq!(memory.read_byte(0x4002), 0x00);
    assert_eq!(memory.read_byte(0x4003), 0x00);
    assert_eq!(memory.read_byte(0x4004), 0xe0);
    assert_eq!(memory.read_byte(0x4005), 0x07);
    assert_eq!(memory.read_byte(0x4006), 0xfa);
    assert_eq!(memory.read_byte(0x4007), 0x02);
    assert_eq!(memory.read_byte(0x4014), 0x60);
    assert_eq!(memory.read_byte(0x4015), 0x27);
    assert_eq!(memory.read_byte(0x4016), 0xe2);
    assert_eq!(memory.read_byte(0x4017), 0x0e);
    assert_eq!(memory.read_byte(0x4018), 0x00);
    assert_eq!(memory.read_byte(0x4019), 0x00);
    render_frames(&mut dsp, &mut memory, 506);
    assert_eq!(render_frames(&mut dsp, &mut memory, 12), vec![(-1426, -12061), (5209, 5515), (7847, 4732), (16101, 3553), (17456, 11285), (19629, 2046), (23234, 4870), (17755, 4259), (12547, -6492), (1510, 7194), (-2572, 6331), (-8787, -2734)]);
    render_frames(&mut dsp, &mut memory, 500);
    assert_eq!(render_frames(&mut dsp, &mut memory, 12), vec![(299, -12711), (6896, 4879), (10517, 3724), (23179, 877), (23679, 8933), (25765, -271), (30486, 2129), (19846, 3470), (9806, -5456), (2413, 6853), (-1807, 6043), (-10061, -2251)]);
    assert_eq!(memory.read_byte(0x4000), 0x00);
    assert_eq!(memory.read_byte(0x4001), 0x06);
    assert_eq!(memory.read_byte(0x4002), 0x42);
    assert_eq!(memory.read_byte(0x4003), 0x02);
    assert_eq!(memory.read_byte(0x47fc), 0x28);
    assert_eq!(memory.read_byte(0x47fd), 0x3e);
    assert_eq!(memory.read_byte(0x47fe), 0x7c);
    assert_eq!(memory.read_byte(0x47ff), 0x17);
    assert_eq!(memory.read_byte(0x4800), 0x00);
    assert_eq!(memory.read_byte(0x4801), 0x00);
}

#[test]
fn echo_writes_can_be_switched_off() {
    let mut memory = sample_memory();
    let mut dsp = Dsp::new();
    dsp.set_register(&memory, 0x5d, 0x03);
    dsp.set_register(&memory, 0x6c, 0x20);
    dsp.set_register(&memory, 0x0c, 0x7f);
    dsp.set_register(&memory, 0x1c, 0x7f);
    dsp.set_register(&memory, 0x6d, 0x40);
    dsp.set_register(&memory, 0x7d, 0x01);
    dsp.set_register(&memory, 0x0d, 0x50);
    dsp.set_register(&memory, 0x2c, 0x60);
    dsp.set_register(&memory, 0x3c, 0xa0);
    dsp.set_register(&memory, 0x7f, 0x7f);
    dsp.set_register(&memory, 0x6f, 0x20);
    dsp.set_register(&memory, 0x0f, 0xf0);
    dsp.set_register(&memory, 0x00, 0x7f);
    dsp.set_register(&memory, 0x01, 0x30);
    dsp.set_register(&memory, 0x02, 0x00);
    dsp.set_register(&memory, 0x03, 0x10);
    dsp.set_register(&memory, 0x04, 0x00);
    dsp.set_register(&memory, 0x05, 0x00);
    dsp.set_register(&memory, 0x06, 0x00);
    dsp.set_register(&memory, 0x07, 0x7f);
    dsp.set_register(&memory, 0x10, 0x10);
    dsp.set_register(&memory, 0x11, 0x7f);
    dsp.set_register(&memory, 0x12, 0x00);
    dsp.set_register(&memory, 0x13, 0x0c);
    dsp.set_register(&memory, 0x14, 0x01);
    dsp.set_register(&memory, 0x15, 0x00);
    dsp.set_register(&memory, 0x16, 0x00);
    dsp.set_register(&memory, 0x17, 0x30);
    dsp.set_register(&memory, 0x4d, 0x01);
    dsp.set_register(&memory, 0x4c, 0x03);
    memory.load(0x4000, &[0x00, 0x10, 0x00, 0xf0, 0x34, 0x12, 0xcc, 0xed]);
    assert_eq!(render_frames(&mut dsp, &mut memory, 10), vec![(3048, 3048), (7234, 12930), (5445, 6922), (6191, 3780), (9334, 13608), (10191, 5292), (12573, 9072), (14570, 12468), (13373, 3343), (-1049, 6804)]);
    assert_eq!(memory.read_byte(0x4000), 0x00);
    assert_eq!(memory.read_byte(0x4001), 0x10);
    assert_eq!(memory.read_byte(0x4002), 0x00);
    assert_eq!(memory.read_byte(0x4003), 0xf0);
    assert_eq!(memory.read_byte(0x4004), 0x34);
    assert_eq!(memory.read_byte(0x4005), 0x12);
    assert_eq!(memory.read_byte(0x4008), 0x00);
}

#[test]
fn echo_delay_0_keeps_the_delay_line_at_one_frame() {
    let mut memory = sample_memory();
    let mut dsp = Dsp::new();
    dsp.set_register(&memory, 0x5d, 0x03);
    dsp.set_register(&memory, 0x0c, 0x7f);
    dsp.set_register(&memory, 0x1c, 0x7f);
    dsp.set_register(&memory, 0x6d, 0xff);
    dsp.set_register(&memory, 0x0d, 0x7f);
    dsp.set_register(&memory, 0x2c, 0x7f);
    dsp.set_register(&memory, 0x3c, 0x7f);
    dsp.set_register(&memory, 0x7f, 0x7f);
    dsp.set_register(&memory, 0x00, 0x40);
    dsp.set_register(&memory, 0x01, 0x40);
    dsp.set_register(&memory, 0x02, 0x00);
    dsp.set_register(&memory, 0x03, 0x10);
    dsp.set_register(&memory, 0x04, 0x00);
    dsp.set_register(&memory, 0x05, 0x00);
    dsp.set_register(&memory, 0x06, 0x00);
    dsp.set_register(&memory, 0x07, 0x7f);
    dsp.set_register(&memory, 0x4d, 0x01);
    dsp.set_register(&memory, 0x4c, 0x01);
    assert_eq!(render_frames(&mut dsp, &mut memory, 12), vec![(0, 0), (1008, 1008), (3016, 3016), (6008, 6008), (9969, 9969), (14882, 14882), (20736, 20736), (27514, 27514), (32767, 32767), (31247, 31247), (28734, 28734), (25244, 25244)]);
    assert_eq!(memory.read_byte(0xff00), 0x84);
    assert_eq!(memory.read_byte(0xff01), 0x62);
    assert_eq!(memory.read_byte(0xff02), 0x84);
    assert_eq!(memory.read_byte(0xff03), 0x62);
    assert_eq!(memory.read_byte(0xff04), 0x00);
}

#[test]
fn echo_filter_sum_of_the_first_seven_taps_wraps() {
    let mut memory = sample_memory();
    let mut dsp = Dsp::new();
    dsp.set_register(&memory, 0x5d, 0x03);
    dsp.set_register(&memory, 0x6c, 0x20);
    dsp.set_register(&memory, 0x0c, 0x00);
    dsp.set_register(&memory, 0x1c, 0x00);
    dsp.set_register(&memory, 0x6d, 0x50);
    dsp.set_register(&memory, 0x7d, 0x00);
    dsp.set_register(&memory, 0x2c, 0x7f);
    dsp.set_register(&memory, 0x3c, 0x7f);
    dsp.set_register(&memory, 0x0f, 0x7f);
    dsp.set_register(&memory, 0x1f, 0x7f);
    dsp.set_register(&memory, 0x2f, 0x7f);
    dsp.set_register(&memory, 0x3f, 0x7f);
    dsp.set_register(&memory, 0x4f, 0x7f);
    dsp.set_register(&memory, 0x5f, 0x7f);
    dsp.set_register(&memory, 0x6f, 0x7f);
    dsp.set_register(&memory, 0x7f, 0x7f);
    memory.load(0x5000, &[0xff, 0x7f, 0x00, 0x80]);
    assert_eq!(render_frames(&mut dsp, &mut memory, 12), vec![(32256, -32258), (32510, -32512), (31744, -31750), (32510, -32512), (31232, -31242), (32510, -32512), (30720, -30734), (32510, -32512), (32510, -32512), (32510, -32512), (32510, -32512), (32510, -32512)]);
}

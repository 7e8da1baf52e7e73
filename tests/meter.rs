use gain_vintage::level::{magnitude, BlockPeak, INFINITY};
use gain_vintage::meter::{EnvelopeMeter, MeterSlot, SILENCE_FLOOR};

const DECAY: f32 = 0.9996;

fn bits(x: f32) -> u32 {
    x.to_bits()
}

fn commit_block(meter: &mut EnvelopeMeter, peak: f32) -> f32 {
    let decayed = f32::from_bits(meter.level()) * DECAY;
    meter.commit(bits(peak), bits(decayed));
    f32::from_bits(meter.level())
}

#[test]
fn magnitude_is_absolute_value() {
    assert_eq!(magnitude(bits(-0.25)), bits(0.25));
    assert_eq!(magnitude(bits(0.25)), bits(0.25));
    assert_eq!(magnitude(bits(-0.0)), bits(0.0));
    assert_eq!(magnitude(bits(f32::NEG_INFINITY)), INFINITY);
}

#[test]
fn block_peak_is_largest_magnitude() {
    let mut peak = BlockPeak::new();
    assert_eq!(peak.value(), 0);
    for x in [0.1f32, -0.7, 0.3, -0.2] {
        peak.observe(bits(x));
    }
    assert_eq!(f32::from_bits(peak.value()), 0.7);
}

#[test]
fn block_peak_ignores_nan_and_resets() {
    let mut peak = BlockPeak::new();
    peak.observe(bits(-0.4));
    peak.observe(bits(f32::NAN));
    assert_eq!(f32::from_bits(peak.value()), 0.4);
    peak.reset();
    assert_eq!(peak.value(), 0);
    peak.observe(bits(-0.0));
    assert_eq!(peak.value(), bits(0.0));
}

#[test]
fn meter_attacks_then_decays() {
    let mut meter = EnvelopeMeter::new();
    let a = commit_block(&mut meter, 0.5);
    let b = commit_block(&mut meter, 0.2);
    let c = commit_block(&mut meter, 0.0);
    assert_eq!(a, 0.5);
    assert_eq!(b, 0.5 * 0.9996);
    assert_eq!(c, 0.5 * 0.9996 * 0.9996);
}

#[test]
fn meter_decays_to_exact_silence() {
    let mut meter = EnvelopeMeter::new();
    commit_block(&mut meter, 0.5);
    let mut blocks: u32 = 0;
    while meter.level() != 0 {
        let before = meter.level();
        commit_block(&mut meter, 0.0);
        assert!(meter.level() == 0 || meter.level() >= SILENCE_FLOOR);
        assert!(meter.level() < before);
        blocks += 1;
        assert!(blocks < 100_000);
    }
    assert!(blocks > 1000);
    assert_eq!(commit_block(&mut meter, 0.0), 0.0);
}

#[test]
fn meter_floors_a_quiet_attack() {
    let mut meter = EnvelopeMeter::new();
    assert_eq!(commit_block(&mut meter, 1e-6), 0.0);
    assert_eq!(commit_block(&mut meter, 1e-5), 1e-5);
}

#[test]
fn meter_new_peak_above_decay_replaces_it() {
    let mut meter = EnvelopeMeter::new();
    commit_block(&mut meter, 0.3);
    assert_eq!(commit_block(&mut meter, 0.8), 0.8);
    assert_eq!(commit_block(&mut meter, 0.8), 0.8 * 0.9996);
}

#[test]
fn slot_reads_what_was_published() {
    let slot = MeterSlot::new();
    assert_eq!(slot.read(), 0);
    let mut meter = EnvelopeMeter::new();
    commit_block(&mut meter, 0.625);
    slot.publish(&meter);
    assert_eq!(f32::from_bits(slot.read()), 0.625);
}

#[test]
fn end_block_commits_only_while_observed() {
    let mut meter = EnvelopeMeter::new();
    let mut block = BlockPeak::new();
    block.observe(bits(-0.6));
    meter.end_block(&mut block, 0, false);
    assert_eq!(meter.level(), 0);
    assert_eq!(block.value(), 0);

    block.observe(bits(0.6));
    block.observe(bits(-0.3));
    meter.end_block(&mut block, 0, true);
    assert_eq!(f32::from_bits(meter.level()), 0.6);
    assert_eq!(block.value(), 0);

    block.observe(bits(0.1));
    let decayed = f32::from_bits(meter.level()) * DECAY;
    meter.end_block(&mut block, bits(decayed), true);
    assert_eq!(f32::from_bits(meter.level()), 0.6 * 0.9996);
}

use wbg_rand::core_gen::CoreGenerator;
use wbg_rand::entropy::ScriptedEntropySource;
use wbg_rand::reseeding::ReseedingGenerator;
use wbg_rand::seed::SeedMaterial;

#[test]
fn four_draws_cross_one_reseed_boundary() {
    // With a scripted source returning [0x01, 0x02, ...] and then
    // [0xFF, 0xFE, ...] and a threshold of 2, four consecutive `next_u32`
    // draws come from a core seeded with the first seed (draws 1 and 2) and
    // then from a core seeded with the second (draws 3 and 4): two entropy
    // invocations in all — construction plus one threshold trigger.
    let seed1 = SeedMaterial::new([0x01, 0x02, 0x03, 0x04, 0x05, 0x06, 0x07, 0x08]);
    let seed2 = SeedMaterial::new([0xFF, 0xFE, 0xFD, 0xFC, 0xFB, 0xFA, 0xF9, 0xF8]);
    let src = ScriptedEntropySource::new(vec![seed1, seed2]);
    let mut g = ReseedingGenerator::from_source(2, src).unwrap();
    assert_eq!(g.source().seeds_used(), 1);

    let d1 = g.next_u32().unwrap();
    let d2 = g.next_u32().unwrap();
    let d3 = g.next_u32().unwrap();
    let d4 = g.next_u32().unwrap();

    let mut core1 = CoreGenerator::from_seed(&seed1);
    assert_eq!(d1, core1.next_u32());
    assert_eq!(d2, core1.next_u32());
    let mut core2 = CoreGenerator::from_seed(&seed2);
    assert_eq!(d3, core2.next_u32());
    assert_eq!(d4, core2.next_u32());

    assert_eq!(d1, 0xD81C_AF32);
    assert_eq!(d2, 0x4CD3_3017);
    assert_eq!(d3, 0x3316_9613);
    assert_eq!(d4, 0xDD31_2F16);

    assert_eq!(g.source().seeds_used(), 2);
}

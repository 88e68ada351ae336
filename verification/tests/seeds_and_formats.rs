use siege::seed::seeds;
use siege::short_format::ShortFormat;

#[test]
fn seeds_are_the_six_houses() {
    let s = seeds();
    let names: Vec<&str> = s.iter().map(|x| x.name).collect();
    assert_eq!(
        names,
        vec!["kings-landing", "winterfell", "the-wall", "iron-islands", "dragonstone", "the-citadel"]
    );
    let parts: Vec<i32> = s.iter().map(|x| x.partitions).collect();
    assert_eq!(parts, vec![6, 3, 1, 3, 3, 1]);
    assert!(s.iter().all(|x| x.replication_factor == 1));
    assert!(s[5].config.is_compacted());
    assert!(s[0].config.is_empty());
}

#[test]
fn short_format_values() {
    assert_eq!(0u32.short(), "0");
    assert_eq!(999u32.short(), "999");
    assert_eq!(1000u32.short(), "1k");
    assert_eq!(1500u32.short(), "1.5k");
    assert_eq!(1999u32.short(), "1.9k");
    assert_eq!(100_000u32.short(), "100k");
    assert_eq!(2_000_000u32.short(), "2M");
    assert_eq!(2_350_000u32.short(), "2.3M");
    assert_eq!(u32::MAX.short(), "4294.9M");
}

use forgetful::Observer;

fn follow(map: &[(u64, u64)], key: u64) -> Option<u64> {
    for &(k, v) in map {
        if k == key {
            return Some(v);
        }
    }
    None
}

/// Follows `map` from `start`, noticing every visited key; a refused notice
/// is surfaced as a "cycle detected" error, a key absent from the map ends
/// the walk. Every token is released before returning, on both paths.
fn traverse(o: &mut Observer, map: &[(u64, u64)], start: u64) -> Result<u64, String> {
    let mut tokens = Vec::new();
    let mut current = start;
    loop {
        match o.notice(current) {
            None => {
                for t in tokens {
                    o.release(t);
                }
                return Err(String::from("cycle detected"));
            }
            Some(t) => tokens.push(t),
        }
        match follow(map, current) {
            Some(next) => current = next,
            None => break,
        }
    }
    for t in tokens {
        o.release(t);
    }
    Ok(current)
}

#[test]
fn cycle_detection_over_map() {
    let map = [
        ('A' as u64, 'B' as u64),
        ('B' as u64, 'C' as u64),
        ('C' as u64, 'A' as u64),
        ('D' as u64, 'E' as u64),
    ];
    let mut o = Observer::new();
    assert_eq!(
        traverse(&mut o, &map, 'A' as u64),
        Err(String::from("cycle detected"))
    );
    // All tokens were released, so the same observer serves the next walk.
    assert_eq!(traverse(&mut o, &map, 'D' as u64), Ok('E' as u64));
    // A fresh observer reaches the same leaf.
    let mut fresh = Observer::new();
    assert_eq!(traverse(&mut fresh, &map, 'D' as u64), Ok('E' as u64));
}

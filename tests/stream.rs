use game_gateway::stream::{EventType, MergedQueue};

fn drain(q: &mut MergedQueue<u32, char>) -> Vec<String> {
    let mut out = Vec::new();
    while let Some(e) = q.next() {
        out.push(match e {
            EventType::A(x) => format!("a{}", x),
            EventType::B(y) => format!("b{}", y),
        });
    }
    out
}

#[test]
fn sources_alternate_while_both_wait() {
    let mut q = MergedQueue::new();
    q.push_a(1);
    q.push_a(2);
    q.push_b('x');
    q.push_b('y');
    q.push_a(3);
    assert_eq!(q.len(), 5);
    assert_eq!(drain(&mut q), vec!["a1", "bx", "a2", "by", "a3"]);
    assert_eq!(q.len(), 0);
}

#[test]
fn each_source_keeps_its_order_under_interleaving() {
    let mut q = MergedQueue::new();
    let mut seen = Vec::new();
    for i in 0..100u32 {
        q.push_a(i);
        if i % 3 == 0 {
            q.push_b(char::from(b'a' + (i % 26) as u8));
        }
        if i % 2 == 0 {
            if let Some(e) = q.next() {
                seen.push(e);
            }
        }
    }
    while let Some(e) = q.next() {
        seen.push(e);
    }
    let a: Vec<u32> = seen.iter().filter_map(|e| if let EventType::A(x) = e { Some(*x) } else { None }).collect();
    let b: Vec<char> = seen.iter().filter_map(|e| if let EventType::B(y) = e { Some(*y) } else { None }).collect();
    assert_eq!(a, (0..100).collect::<Vec<u32>>());
    let expected_b: Vec<char> = (0..100u32).filter(|i| i % 3 == 0).map(|i| char::from(b'a' + (i % 26) as u8)).collect();
    assert_eq!(b, expected_b);
}

#[test]
fn empty_merge_yields_nothing() {
    let mut q: MergedQueue<u32, char> = MergedQueue::new();
    assert!(q.next().is_none());
    q.push_b('z');
    assert_eq!(drain(&mut q), vec!["bz"]);
    assert!(q.next().is_none());
}

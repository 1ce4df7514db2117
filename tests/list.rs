use as_pattern::AsPattern;
use as_pattern::{cons, nil, Count, List, Val, L};

fn elements(list: &List<i32>) -> Vec<i32> {
    let mut out = Vec::new();
    let mut cur = list.clone();
    loop {
        match cur.pat() {
            L::Nil => return out,
            L::Cons(e, rest) => {
                out.push(e);
                cur = rest;
            }
        }
    }
}

fn build(n: i32) -> List<i32> {
    let mut l = nil();
    for i in 1..=n {
        l = cons(i, &l);
    }
    l
}

#[test]
fn it_works() {
    let a = nil();
    let b = cons(1, &a);
    let c = cons(2, &b);

    match c.clone().pat() {
        L::Nil => println!("oops!"),
        L::Cons(e, l) => {
            match l.pat() {
                L::Nil => println!("Got {:?}, and that's the end", e),
                L::Cons(..) => println!("Got {:?}, and more numbers", e),
            }
        }
    }

    match c.clone().pat() {
        Count::Empty => println!("there was supposed to be something..."),
        Count::Single(e) => println!("wasn't there more than just {:?}?", e),
        Count::Double(e1, e2) => println!("we have our {:?} and {:?}", e1, e2),
        Count::Triple(e1, e2, e3) => println!("{:?},{:?}, and {:?} seem like a lot", e1, e2, e3),
        Count::Many => println!("we never expected that!"),
    }

    let _head = c.head();
    let Val(_head) = c.pat();

    println!("and we got our {:?} another way!", _head);
}

#[test]
fn head_is_latest_prepend() {
    let a = nil();
    let b = cons(7, &a);
    assert_eq!(b.head(), 7);
    let c = cons(9, &b);
    assert_eq!(c.head(), 9);
    assert_eq!(b.head(), 7);
    let d = c.clone();
    assert_eq!(d.head(), 9);
    assert_eq!(elements(&c), vec![9, 7]);
    assert_eq!(elements(&d), vec![9, 7]);
}

#[test]
fn structural_round_trip() {
    let l = build(4);
    match l.clone().pat() {
        L::Nil => panic!("list is not empty"),
        L::Cons(e, rest) => {
            assert_eq!(e, 4);
            let back = cons(e, &rest);
            assert_eq!(elements(&back), elements(&l));
            assert_eq!(elements(&back), vec![4, 3, 2, 1]);
        }
    }
}

#[test]
fn structural_view_of_empty_list() {
    let a: List<i32> = nil();
    assert!(matches!(a.pat(), L::Nil));
}

#[test]
fn count_view_boundaries() {
    assert!(matches!(build(0).pat(), Count::Empty));
    assert!(matches!(build(1).pat(), Count::Single(1)));
    assert!(matches!(build(2).pat(), Count::Double(2, 1)));
    assert!(matches!(build(3).pat(), Count::Triple(3, 2, 1)));
    assert!(matches!(build(4).pat(), Count::Many));
    assert!(matches!(build(5).pat(), Count::Many));
    assert!(matches!(build(100).pat(), Count::Many));
}

#[test]
fn identity_conversion() {
    let x: i32 = 42;
    let y: i32 = x.pat();
    assert_eq!(y, 42);
    let s = String::from("abc");
    let t: String = s.pat();
    assert_eq!(t, "abc");
    let l = build(2);
    let m: List<i32> = l.pat();
    assert_eq!(elements(&m), vec![2, 1]);
}

#[test]
fn head_value_view() {
    let l = build(3);
    let Val(h) = l.pat();
    assert_eq!(h, 3);
}

#[test]
fn prepend_onto_clone_shares_tail() {
    let a = cons(1, &nil());
    let b1 = a.clone();
    let b2 = a.clone();
    let n = cons(2, &b1);
    assert_eq!(elements(&b2), vec![1]);
    assert_eq!(elements(&b1), vec![1]);
    assert_eq!(elements(&n), vec![2, 1]);
}

#[test]
fn three_prepends_scenario() {
    let l = cons(3, &cons(2, &cons(1, &nil())));
    assert!(matches!(l.clone().pat(), Count::Triple(3, 2, 1)));
    match l.pat() {
        L::Nil => panic!("expected an element"),
        L::Cons(e, rest) => {
            assert_eq!(e, 3);
            assert!(matches!(rest.clone().pat(), Count::Double(2, 1)));
            match rest.pat() {
                L::Nil => panic!("expected an element"),
                L::Cons(e2, rest2) => {
                    assert_eq!(e2, 2);
                    match rest2.pat() {
                        L::Nil => panic!("expected an element"),
                        L::Cons(e3, rest3) => {
                            assert_eq!(e3, 1);
                            assert!(matches!(rest3.pat(), L::Nil));
                        }
                    }
                }
            }
        }
    }
}

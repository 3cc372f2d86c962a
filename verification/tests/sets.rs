use suibi::sets::{IdSet, NameSet};

fn sorted(mut v: Vec<u128>) -> Vec<u128> {
    v.sort();
    v
}

fn sorted_names(mut v: Vec<String>) -> Vec<String> {
    v.sort();
    v
}

#[test]
fn id_set_insert_remove_contains() {
    let mut s = IdSet::new();
    assert!(s.is_empty());
    s.insert(3);
    s.insert(3);
    s.insert(7);
    assert!(s.contains(3) && s.contains(7) && !s.contains(5));
    assert_eq!(sorted(s.to_vec()), vec![3, 7]);
    s.remove(3);
    assert!(!s.contains(3));
    assert_eq!(s.to_vec(), vec![7]);
}

#[test]
fn id_set_from_vec_drops_duplicates() {
    let s = IdSet::from_vec(vec![5, 1, 5, 2, 1]);
    assert_eq!(sorted(s.to_vec()), vec![1, 2, 5]);
}

#[test]
fn id_set_extend_and_retain() {
    let mut s = IdSet::from_vec(vec![1, 2]);
    s.extend(&vec![2, 3, 4]);
    assert_eq!(sorted(s.to_vec()), vec![1, 2, 3, 4]);
    s.retain_absent_from(&vec![1, 4, 9]);
    assert_eq!(sorted(s.to_vec()), vec![2, 3]);
}

#[test]
fn id_set_common_and_absent() {
    let a = IdSet::from_vec(vec![1, 2]);
    let b = IdSet::from_vec(vec![2, 3]);
    let c = IdSet::from_vec(vec![1, 2, 3]);
    assert_eq!(a.common_with(&b).to_vec(), vec![2]);
    assert!(a.common_with(&IdSet::from_vec(vec![9])).is_empty());
    assert!(a.absent_from(&c).is_empty());
    assert_eq!(a.absent_from(&b).to_vec(), vec![1]);
    assert!(IdSet::new().absent_from(&b).is_empty());
}

#[test]
fn name_set_operations() {
    let mut s = NameSet::from_vec(vec!["user.read".to_string(), "user.read".to_string()]);
    assert_eq!(s.to_vec(), vec!["user.read".to_string()]);
    s.insert("user.write".to_string());
    assert!(s.contains(&"user.write".to_string()));
    s.extend(&vec!["a".to_string(), "b".to_string()]);
    s.retain_absent_from(&vec!["user.read".to_string(), "b".to_string()]);
    assert_eq!(sorted_names(s.to_vec()), vec!["a".to_string(), "user.write".to_string()]);
    s.remove(&"a".to_string());
    assert!(!s.contains(&"a".to_string()));
    let t = s.clone();
    assert_eq!(t.to_vec(), vec!["user.write".to_string()]);
    assert!(t.absent_from(&s).is_empty());
    assert_eq!(t.common_with(&s).to_vec(), vec!["user.write".to_string()]);
    let u = NameSet::from_vec(vec!["x".to_string(), "user.write".to_string()]);
    assert_eq!(u.absent_from(&s).to_vec(), vec!["x".to_string()]);
    assert!(NameSet::new().is_empty());
}

use ownership::inventory::shoes_in_size;
use ownership::inventory::Shoe;

#[test]
fn iterator_sum() {
    let v1 = vec![1, 2, 3];
    let v1_iter = v1.iter();
    let total: i32 = v1_iter.sum();
    assert_eq!(total, 6);
}

#[test]
fn filters_by_size() {
    let shoes = vec![
        Shoe {
            size: 10,
            style: String::from("sneaker"),
        },
        Shoe {
            size: 13,
            style: String::from("sandal"),
        },
        Shoe {
            size: 10,
            style: String::from("boot"),
        },
    ];
    let in_my_size = shoes_in_size(shoes, 10);
    assert_eq!(
        in_my_size,
        vec![
            Shoe {
                size: 10,
                style: String::from("sneaker")
            },
            Shoe {
                size: 10,
                style: String::from("boot")
            },
        ]
    );
}

#[test]
fn filters_by_size_empty_stock() {
    let shoes: Vec<Shoe> = Vec::new();
    let in_my_size = shoes_in_size(shoes, 10);
    assert!(in_my_size.is_empty());
}

#[test]
fn filters_by_size_no_match() {
    let shoes = vec![Shoe {
        size: 9,
        style: String::from("loafer"),
    }];
    let in_my_size = shoes_in_size(shoes, 10);
    assert!(in_my_size.is_empty());
}

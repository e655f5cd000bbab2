use vendor_catalog::{
    vendor_lines_borrowed, vendor_lines_owned, vendor_text_dynamic, Sellable, Shield, Sword,
};

fn cowardise() -> Sword {
    Sword::new(String::from("Sword of cowardise"), 10, 1500).unwrap()
}

fn barrier() -> Shield {
    Shield::new(String::from("Golden Barrier"), 50, 35).unwrap()
}

#[test]
fn mixed_collection_is_offered_in_order() {
    let blade = cowardise();
    let guard = barrier();
    let sellables: Vec<&dyn Sellable> = vec![&blade, &guard];
    let lines = vendor_lines_borrowed(&sellables);
    assert_eq!(
        lines,
        vec![
            "I offer you Sword of cowardise, damage is 10, swing time: 1500ms, [60g]",
            "I offer you Golden Barrier, armor: 50, block: 35ms, [85g]",
        ]
    );
}

#[test]
fn reversed_collection_gives_reversed_lines() {
    let blade = cowardise();
    let guard = barrier();
    let sellables: Vec<&dyn Sellable> = vec![&guard, &blade];
    let lines = vendor_lines_borrowed(&sellables);
    assert_eq!(
        lines,
        vec![
            "I offer you Golden Barrier, armor: 50, block: 35ms, [85g]",
            "I offer you Sword of cowardise, damage is 10, swing time: 1500ms, [60g]",
        ]
    );
}

#[test]
fn owning_collection_is_offered_in_order() {
    let box_sellables: Vec<Box<dyn Sellable>> = vec![
        Box::new(Sword::new(String::from("Blade of heap"), 55, 2000).unwrap()),
        Box::new(Shield::new(String::from("Shield of dynamic memory"), 130, 55).unwrap()),
    ];
    let lines = vendor_lines_owned(&box_sellables);
    assert_eq!(
        lines,
        vec![
            "I offer you Blade of heap, damage is 55, swing time: 2000ms, [270g]",
            "I offer you Shield of dynamic memory, armor: 130, block: 55ms, [185g]",
        ]
    );
}

#[test]
fn borrowed_and_owning_collections_read_alike() {
    let blade = cowardise();
    let guard = barrier();
    let other = Shield::new(String::from("Lid"), 1, 2).unwrap();
    let borrowed: Vec<&dyn Sellable> = vec![&blade, &guard, &other, &blade];
    let owned: Vec<Box<dyn Sellable>> = vec![
        Box::new(cowardise()),
        Box::new(barrier()),
        Box::new(Shield::new(String::from("Lid"), 1, 2).unwrap()),
        Box::new(cowardise()),
    ];
    assert_eq!(vendor_lines_borrowed(&borrowed), vendor_lines_owned(&owned));
}

#[test]
fn each_line_is_the_dynamic_offer_of_its_item() {
    let blade = cowardise();
    let guard = barrier();
    let sellables: Vec<&dyn Sellable> = vec![&blade, &guard, &guard, &blade];
    let lines = vendor_lines_borrowed(&sellables);
    assert_eq!(lines.len(), sellables.len());
    for (line, item) in lines.iter().zip(sellables.iter()) {
        assert_eq!(*line, vendor_text_dynamic(*item));
    }
    let owned: Vec<Box<dyn Sellable>> = vec![Box::new(barrier()), Box::new(cowardise())];
    let lines = vendor_lines_owned(&owned);
    assert_eq!(lines.len(), owned.len());
    for (line, item) in lines.iter().zip(owned.iter()) {
        assert_eq!(*line, vendor_text_dynamic(item.as_ref()));
    }
}

#[test]
fn empty_collections_give_no_lines() {
    let nothing: Vec<&dyn Sellable> = Vec::new();
    assert!(vendor_lines_borrowed(&nothing).is_empty());
    let nothing: Vec<Box<dyn Sellable>> = Vec::new();
    assert!(vendor_lines_owned(&nothing).is_empty());
}

#[test]
fn a_slice_of_a_collection_gives_the_lines_of_that_slice() {
    let blade = cowardise();
    let guard = barrier();
    let sellables: Vec<&dyn Sellable> = vec![&blade, &guard, &blade];
    let lines = vendor_lines_borrowed(&sellables[1..]);
    assert_eq!(
        lines,
        vec![
            "I offer you Golden Barrier, armor: 50, block: 35ms, [85g]",
            "I offer you Sword of cowardise, damage is 10, swing time: 1500ms, [60g]",
        ]
    );
}

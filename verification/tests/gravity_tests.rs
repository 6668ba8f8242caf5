use planet_controller::gravity::{select_field_of_influence, GravityField, GravityFieldType};

fn sphere(priority: u8) -> Option<GravityField> {
    Some(GravityField { field_type: GravityFieldType::Sphere, priority })
}

fn half_plane(priority: u8) -> Option<GravityField> {
    Some(GravityField { field_type: GravityFieldType::HalfPlane, priority })
}

#[test]
fn no_contacts_no_field() {
    assert_eq!(select_field_of_influence(&vec![]), None);
}

#[test]
fn contacts_without_fields_no_field() {
    assert_eq!(select_field_of_influence(&vec![None, None, None]), None);
}

#[test]
fn single_field_governs() {
    assert_eq!(select_field_of_influence(&vec![None, sphere(3), None]), Some(1));
}

#[test]
fn highest_priority_governs() {
    assert_eq!(select_field_of_influence(&vec![sphere(1), half_plane(5), sphere(2)]), Some(1));
    assert_eq!(select_field_of_influence(&vec![sphere(1), half_plane(2), sphere(9)]), Some(2));
}

#[test]
fn first_of_equal_priorities_governs() {
    assert_eq!(select_field_of_influence(&vec![None, half_plane(4), sphere(4), sphere(4)]), Some(1));
}

#[test]
fn later_field_takes_over_only_when_strictly_higher() {
    let mut contacts = vec![sphere(2)];
    contacts.push(half_plane(2));
    assert_eq!(select_field_of_influence(&contacts), Some(0));
    contacts.push(half_plane(3));
    assert_eq!(select_field_of_influence(&contacts), Some(2));
    contacts.push(None);
    assert_eq!(select_field_of_influence(&contacts), Some(2));
}

#[test]
fn priority_extremes() {
    assert_eq!(select_field_of_influence(&vec![sphere(0), sphere(255), sphere(0)]), Some(1));
    assert_eq!(select_field_of_influence(&vec![sphere(0)]), Some(0));
}

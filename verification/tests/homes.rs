use tibber_cli::api::{homes_from_viewer, resolve_display_name, Address, ApiError, Home, HomeId, RawHome};
use tibber_cli::{resolve_home, ResolveError};

/// Creates a [`Home`] with the given ID and name, using UTC as timezone.
fn home(id: &str, name: &str) -> Home {
    Home { id: HomeId(id.to_owned()), name: name.to_owned(), time_zone: "UTC".to_owned() }
}

fn raw(id: &str, nickname: Option<&str>, address1: Option<Option<&str>>) -> RawHome {
    RawHome {
        id: HomeId(id.to_owned()),
        time_zone: "Europe/Oslo".to_owned(),
        app_nickname: nickname.map(str::to_owned),
        address: address1.map(|a| Address { address1: a.map(str::to_owned) }),
    }
}

// -- resolve_home ----------------------------------------------------------

#[test]
fn resolve_home_auto_selects_single_home() {
    // Arrange
    let homes = [home("abc", "My House")];

    // Act
    let result = resolve_home(None, &homes);

    // Assert
    assert!(result.is_ok());
    assert_eq!(result.unwrap().id, HomeId("abc".to_owned()));
}

#[test]
fn resolve_home_finds_matching_id() {
    // Arrange
    let homes = [home("aaa", "Home A"), home("bbb", "Home B")];
    let target = HomeId("bbb".to_owned());

    // Act
    let result = resolve_home(Some(&target), &homes);

    // Assert
    assert!(result.is_ok());
    assert_eq!(result.unwrap().name, "Home B");
}

#[test]
fn resolve_home_errors_on_unknown_id() {
    // Arrange
    let homes = [home("aaa", "Home A")];
    let target = HomeId("zzz".to_owned());

    // Act
    let result = resolve_home(Some(&target), &homes);

    // Assert
    assert!(result.is_err());
    let msg = result.unwrap_err().message();
    assert!(msg.contains("zzz"), "error should mention the unknown ID");
}

#[test]
fn resolve_home_errors_when_multiple_homes_without_selection() {
    // Arrange
    let homes = [home("aaa", "Home A"), home("bbb", "Home B")];

    // Act
    let result = resolve_home(None, &homes);

    // Assert
    assert!(result.is_err());
    let msg = result.unwrap_err().message();
    assert!(msg.contains("--home-id"), "error should hint at --home-id flag");
}

#[test]
fn resolve_home_errors_without_homes() {
    let homes: [Home; 0] = [];
    let result = resolve_home(None, &homes);
    assert_eq!(result.unwrap_err(), ResolveError::NoHomes);
    let target = HomeId("abc".to_owned());
    let result = resolve_home(Some(&target), &homes);
    assert_eq!(result.unwrap_err(), ResolveError::HomeNotFound(HomeId("abc".to_owned())));
}

#[test]
fn resolve_home_picks_the_first_home_with_the_id() {
    let homes = [home("aaa", "First"), home("bbb", "Other"), home("aaa", "Second")];
    let target = HomeId("aaa".to_owned());
    assert_eq!(resolve_home(Some(&target), &homes).unwrap().name, "First");
}

#[test]
fn resolve_error_messages() {
    assert_eq!(
        ResolveError::HomeNotFound(HomeId("zzz".to_owned())).message(),
        "home with ID 'zzz' not found"
    );
    assert_eq!(ResolveError::NoHomes.message(), "no homes found in your Tibber account");
    assert_eq!(
        ResolveError::MultipleHomes.message(),
        "multiple homes found; use --home-id to select one, or --list-homes to see available homes"
    );
}

// -- homes from the API ------------------------------------------------------

#[test]
fn display_name_prefers_nickname_then_address() {
    assert_eq!(resolve_display_name(&raw("a", Some("Cabin"), Some(Some("Street 1")))), "Cabin");
    assert_eq!(resolve_display_name(&raw("a", Some(""), Some(Some("Street 1")))), "Street 1");
    assert_eq!(resolve_display_name(&raw("a", None, Some(Some("Street 1")))), "Street 1");
    assert_eq!(resolve_display_name(&raw("a", None, Some(Some("")))), "Tibber Home");
    assert_eq!(resolve_display_name(&raw("a", Some(""), Some(None))), "Tibber Home");
    assert_eq!(resolve_display_name(&raw("a", None, None)), "Tibber Home");
}

#[test]
fn homes_keep_order_ids_and_zones() {
    let homes = homes_from_viewer(vec![raw("a", Some("Cabin"), None), raw("b", None, None)]).unwrap();
    assert_eq!(homes.len(), 2);
    assert_eq!(homes[0].id, HomeId("a".to_owned()));
    assert_eq!(homes[0].name, "Cabin");
    assert_eq!(homes[1].id.as_str(), "b");
    assert_eq!(homes[1].name, "Tibber Home");
    assert_eq!(homes[1].time_zone, "Europe/Oslo");
}

#[test]
fn no_homes_is_an_error() {
    let result = homes_from_viewer(Vec::new());
    assert_eq!(result.unwrap_err(), ApiError::NoHomes);
    assert_eq!(ApiError::NoHomes.message(), "no homes found");
}

#[test]
fn home_id_from_str() {
    let id: HomeId = "xxxx-1234".parse().unwrap();
    assert_eq!(id, HomeId("xxxx-1234".to_owned()));
    assert_eq!(id.clone().as_str(), "xxxx-1234");
}

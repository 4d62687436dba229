use gcwm_domain::{ConstainedTrustOrCompanyNameString200, ConstrainedIndividualNameString100, EmailAddress};

#[test]
fn test_valid_name() {
    let name = "JohnDoe".to_string();
    let result = ConstrainedIndividualNameString100::try_from(name);
    assert!(result.is_ok());
    let constrained_name = result.unwrap();
    assert_eq!(constrained_name.value(), "JohnDoe");
}

#[test]
fn test_empty_name() {
    let name = "".to_string();
    let result = ConstrainedIndividualNameString100::try_from(name);
    assert!(result.is_err());
    assert_eq!(result.unwrap_err(), "Constrained string 100 characters must have at least one character.");
}

#[test]
fn test_name_with_numbers() {
    let name = "JohnDoe123".to_string();
    let result = ConstrainedIndividualNameString100::try_from(name);
    assert!(result.is_err());
    assert_eq!(result.unwrap_err(), "Constrained name string 100 must not have any numbers in it.");
}

#[test]
fn test_name_with_special_characters() {
    let name = "JohnDoe!@#".to_string();
    let result = ConstrainedIndividualNameString100::try_from(name);
    assert!(result.is_err());
    assert_eq!(result.unwrap_err(), "Constrained name string 100 must not have any unusual special characters such as ! £ $ % ^ & * () {} \\ / _ + in it.");
}

#[test]
fn test_name_too_long() {
    let name = "a".repeat(101);
    let result = ConstrainedIndividualNameString100::try_from(name);
    assert!(result.is_err());
    assert_eq!(result.unwrap_err(), "Constrained string 100 must not have more than 100 characters.");
}

#[test]
fn test_name_with_allowed_special_characters() {
    let name = "John-Doe Example.Name".to_string();
    let result = ConstrainedIndividualNameString100::try_from(name);
    assert!(result.is_ok());
    let constrained_name = result.unwrap();
    assert_eq!(constrained_name.value(), "John-Doe Example.Name");
}

#[test]
fn test_valid_email() {
    let email = "example@example.com".to_string();
    let result = EmailAddress::try_from(email);
    assert!(result.is_ok());
    let email_address = result.unwrap();
    assert_eq!(email_address.value(), "example@example.com");
}

#[test]
fn test_invalid_email_no_at() {
    let email = "example.com".to_string();
    let result = EmailAddress::try_from(email);
    assert!(result.is_err());
    assert_eq!(result.unwrap_err(), "Invalid email address format.");
}

#[test]
fn test_invalid_email_no_domain() {
    let email = "example@".to_string();
    let result = EmailAddress::try_from(email);
    assert!(result.is_err());
    assert_eq!(result.unwrap_err(), "Invalid email address format.");
}

#[test]
fn test_invalid_email_special_chars() {
    let email = "example@exa!mple.com".to_string();
    let result = EmailAddress::try_from(email);
    assert!(result.is_err());
    assert_eq!(result.unwrap_err(), "Invalid email address format.");
}

#[test]
fn test_invalid_email_double_dot() {
    let email = "example@example..com".to_string();
    let result = EmailAddress::try_from(email);
    assert!(result.is_err());
    assert_eq!(result.unwrap_err(), "Invalid email address format.");
}

#[test]
fn test_constrained_trust_or_company_name_string_200_valid() {
    let name = ConstainedTrustOrCompanyNameString200::try_from("Valid Trust or Company Name".to_string());
    assert!(name.is_ok());
}

#[test]
fn test_constrained_trust_or_company_name_string_200_empty() {
    let name = ConstainedTrustOrCompanyNameString200::try_from("".to_string());
    assert!(name.is_err());
    if let Err(err) = name {
        assert_eq!(err, "Constrained string 100 characters must have at least one character.");
    } else {
        panic!("Expected error for empty string");
    }
}

#[test]
fn test_constrained_trust_or_company_name_string_200_too_long() {
    let long_name = "a".repeat(201);
    let name = ConstainedTrustOrCompanyNameString200::try_from(long_name);
    assert!(name.is_err());
    if let Err(err) = name {
        assert_eq!(err, "Constrained string 100 must not have more than 100 characters.");
    } else {
        panic!("Expected error for too long string");
    }
}

#[test]
fn test_constrained_trust_or_company_name_string_200_with_unusual_chars() {
    let name = ConstainedTrustOrCompanyNameString200::try_from("Invalid!Name".to_string());
    assert!(name.is_err());
    if let Err(err) = name {
        assert_eq!(err, "Constrained trust or company name string 100 must not have any unusual special characters such as ! £ $ % ^ * () {} \\ / _ in it.");
    } else {
        panic!("Expected error for name with unusual characters");
    }
}

#[test]
fn test_constrained_trust_or_company_name_string_200_with_allowed_chars() {
    let name = ConstainedTrustOrCompanyNameString200::try_from("Valid Name with - and ' and . and &".to_string());
    assert!(name.is_ok());
}

#[test]
fn test_constrained_trust_or_company_name_string_200_value() {
    let name = ConstainedTrustOrCompanyNameString200::try_from("Valid Trust or Company Name".to_string()).unwrap();
    assert_eq!(name.value(), "Valid Trust or Company Name");
}

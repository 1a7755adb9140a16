use crc_framework::error::CrcError;

#[test]
fn messages_name_the_error_kind() {
    assert_eq!(
        CrcError::InvalidInput("bad".to_string()).message(),
        "invalid input: bad"
    );
    assert_eq!(
        CrcError::Unsupported("later".to_string()).message(),
        "unsupported operation: later"
    );
    assert_eq!(
        CrcError::MissingParameter("shape".to_string()).message(),
        "missing parameter: shape"
    );
}

#[test]
fn convergence_message_gives_family_and_iterations() {
    let error = CrcError::ConvergenceFailed {
        family: "genextreme".to_string(),
        iterations: 250,
    };
    assert_eq!(
        error.message(),
        "genextreme fitting did not converge after 250 iterations"
    );
    let error = CrcError::ConvergenceFailed {
        family: "gumbel_r".to_string(),
        iterations: 0,
    };
    assert_eq!(error.message(), "gumbel_r fitting did not converge after 0 iterations");
}

#[test]
fn branch_limit_message_gives_the_counts() {
    let error = CrcError::BranchLimitExceeded {
        factors: 21,
        branches: 2097152,
        limit: 1048576,
    };
    assert_eq!(
        error.message(),
        "21 factors require 2097152 spanning branches, above limit 1048576"
    );
    let error = CrcError::BranchLimitExceeded {
        factors: 64,
        branches: usize::MAX,
        limit: usize::MAX,
    };
    let expected = format!(
        "64 factors require {} spanning branches, above limit {}",
        usize::MAX,
        usize::MAX
    );
    assert_eq!(error.message(), expected);
}

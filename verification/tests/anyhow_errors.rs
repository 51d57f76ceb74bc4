use anyhow::{Error, Result};

#[test]
fn anyhow_example() {
    fn read_file() -> Result<String> {
        Err(Error::msg("This failed"))
    }

    assert_eq!(
        read_file().unwrap_err().to_string(),
        Error::msg("This failed").to_string()
    );
}

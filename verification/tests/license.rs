use projman::error::Error;
use projman::license::detect_license;

const MIT: &str = "Permission is hereby granted, free of charge, to any person obtaining a copy of this software and associated documentation files (the \"Software\"), to deal in the Software without restriction, including without limitation the rights to use, copy, modify, merge, publish, distribute, sublicense, and/or sell copies of the Software.";
const OTHER: &str = "This program is free software: you can redistribute it and/or modify it under the terms of the GNU General Public License as published by the Free Software Foundation, either version 3 of the License.";

#[test]
fn no_known_license_is_a_fetch_error() {
    match detect_license(&Vec::new(), MIT) {
        Err(Error::Fetch(info)) => {
            assert_eq!(info.string, "project license");
            assert_eq!(info.err, "the license store is empty");
        }
        other => panic!("unexpected {other:?}"),
    }
}

#[test]
fn the_closest_known_license_is_named() {
    let licenses = vec![("MIT".to_string(), MIT.to_string()), ("GPL-3.0".to_string(), OTHER.to_string())];
    assert_eq!(detect_license(&licenses, MIT).ok(), Some("MIT".to_string()));
    assert_eq!(detect_license(&licenses, OTHER).ok(), Some("GPL-3.0".to_string()));
    let one = vec![("MIT".to_string(), MIT.to_string())];
    assert_eq!(detect_license(&one, "nothing like any license").ok(), Some("MIT".to_string()));
}

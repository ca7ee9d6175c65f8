use pdf_ocr::config::{Config, RecognitionConfig, MAX_OEM, MAX_PSM};

fn text(s: &str) -> String {
    String::from(s)
}

#[test]
fn defaults() {
    let config = Config::new(text("scan.pdf"));
    assert_eq!(
        config,
        Config {
            pdf_path: text("scan.pdf"),
            output_path: None,
            lang: text("eng"),
            dpi: 300,
            preprocess: false,
            tessdata_path: None,
            psm: 1,
            oem: 3,
        }
    );
    assert!(config.is_valid());
}

#[test]
fn modes_have_bounds() {
    assert_eq!(MAX_PSM, 13);
    assert_eq!(MAX_OEM, 3);
    let mut config = Config::new(text("scan.pdf"));
    for psm in 0..=13u8 {
        for oem in 0..=3u8 {
            config.psm = psm;
            config.oem = oem;
            assert!(config.is_valid());
        }
    }
    config.psm = 14;
    config.oem = 3;
    assert!(!config.is_valid());
    config.psm = 13;
    config.oem = 4;
    assert!(!config.is_valid());
    config.psm = 255;
    config.oem = 255;
    assert!(!config.is_valid());
}

#[test]
fn recognition_takes_over_the_settings() {
    let config = Config {
        pdf_path: text("scan.pdf"),
        output_path: Some(text("out.txt")),
        lang: text("deu"),
        dpi: 450,
        preprocess: true,
        tessdata_path: Some(text("/opt/tessdata_best")),
        psm: 7,
        oem: 1,
    };
    assert_eq!(
        config.recognition(),
        RecognitionConfig {
            lang: text("deu"),
            dpi: 450,
            tessdata_path: Some(text("/opt/tessdata_best")),
            psm: 7,
            oem: 1,
        }
    );
    assert_eq!(config.duplicate(), config);
}

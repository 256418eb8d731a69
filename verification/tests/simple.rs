use baselines::simple::{Method, Method2D};
use baselines::BaselineError;

#[test]
fn method_names_are_stable_and_parseable() {
    for method in Method::ALL {
        assert_eq!(method.as_str().parse::<Method>(), Ok(method));
    }
    for method in Method2D::ALL {
        assert_eq!(method.as_str().parse::<Method2D>(), Ok(method));
    }
}

#[test]
fn method_names_are_exact() {
    let names: Vec<&str> = Method::ALL.iter().map(|m| m.as_str()).collect();
    assert_eq!(names, vec!["asls", "arpls", "airpls", "rolling_ball", "polynomial"]);
    let names_2d: Vec<&str> = Method2D::ALL.iter().map(|m| m.as_str()).collect();
    assert_eq!(names_2d, vec!["asls", "arpls", "rolling_ball", "polynomial"]);
}

#[test]
fn method_parsing_ignores_ascii_case_and_accepts_aliases() {
    assert_eq!("ASLS".parse::<Method>(), Ok(Method::Asls));
    assert_eq!("ArPlS".parse::<Method>(), Ok(Method::Arpls));
    assert_eq!("AirPLS".parse::<Method>(), Ok(Method::Airpls));
    assert_eq!("Rolling-Ball".parse::<Method>(), Ok(Method::RollingBall));
    assert_eq!("POLY".parse::<Method>(), Ok(Method::Polynomial));
    assert_eq!("rolling-ball".parse::<Method2D>(), Ok(Method2D::RollingBall));
    assert_eq!("Poly".parse::<Method2D>(), Ok(Method2D::Polynomial));
}

#[test]
fn method_parsing_rejects_unknown_names() {
    assert_eq!(
        "airpls".parse::<Method2D>(),
        Err(BaselineError::InvalidParameter {
            name: "method",
            reason: "expected asls, arpls, rolling_ball, or polynomial",
        })
    );
    assert_eq!(
        "asls ".parse::<Method>(),
        Err(BaselineError::InvalidParameter {
            name: "method",
            reason: "expected asls, arpls, airpls, rolling_ball, or polynomial",
        })
    );
    assert!("".parse::<Method>().is_err());
    assert!("ąsls".parse::<Method>().is_err());
}

#[test]
fn default_methods_are_asls() {
    assert_eq!(Method::default(), Method::Asls);
    assert_eq!(Method2D::default(), Method2D::Asls);
}

use baselines::api::one_d::{CustomBcBuilder, CwtBrBuilder};
use baselines::classification::CwtBrParams;
use baselines::api::two_d::{Imor2DBuilder, IndividualAxes2DBuilder};
use baselines::optimizers::CustomBcParams;
use baselines::two_d::morphology::{Imor2DParams, Morphology2DParams};
use baselines::two_d::optimizers::IndividualAxes2DParams;
use baselines::whittaker::{AslsParams, WhittakerParams};

fn asls(lambda: f64, max_iter: usize) -> AslsParams<f64> {
    AslsParams { whittaker: WhittakerParams { lambda, max_iter, tol: 1.0e-3 }, p: 0.01 }
}

#[test]
fn imor_builder_sets_windows() {
    let data = [1.0, 2.0, 3.0];
    let params = Imor2DParams { morphology: Morphology2DParams::default(), max_iter: 200, tol: 1.0e-3 };
    let builder = Imor2DBuilder::new(&data[..], params).window_rows(3).window_cols(9).max_iter(5).tol(0.5);
    assert_eq!(
        *builder.params(),
        Imor2DParams { morphology: Morphology2DParams { window_rows: 3, window_cols: 9 }, max_iter: 5, tol: 0.5 }
    );
    assert_eq!(*builder.input(), &data[..]);
    let replaced = builder.with_params(params);
    assert_eq!(*replaced.params(), params);
}

#[test]
fn individual_axes_builder_sets_asls() {
    let params = IndividualAxes2DParams { asls: asls(1.0e4, 50) };
    let builder = IndividualAxes2DBuilder::new((), params).max_iter(7);
    assert_eq!(builder.params().asls.whittaker.max_iter, 7);
    assert_eq!(builder.params().asls.whittaker.lambda, 1.0e4);
    let builder = builder.asls_params(asls(2.0, 3)).lambda(5.0).tol(0.25).p(0.2);
    assert_eq!(
        builder.params().asls,
        AslsParams { whittaker: WhittakerParams { lambda: 5.0, max_iter: 3, tol: 0.25 }, p: 0.2 }
    );
}

#[test]
fn custom_bc_builder_sets_regions() {
    let y = vec![0.0; 10];
    let params = CustomBcParams { regions: vec![], sampling: 1, asls: asls(1.0e6, 50), smooth_lambda: None };
    let builder = CustomBcBuilder::new(y.as_slice(), params.clone())
        .regions(vec![(Some(1), Some(4)), (None, Some(2))])
        .sampling(15)
        .smooth_lambda(10.0);
    assert_eq!(builder.params().regions, vec![(Some(1), Some(4)), (None, Some(2))]);
    assert_eq!(builder.params().sampling, 15);
    assert_eq!(builder.params().smooth_lambda, Some(10.0));
    let builder = builder.region(Some(3), None).no_smooth_lambda().asls_params(asls(3.0, 4));
    assert_eq!(builder.params().regions, vec![(Some(3), None)]);
    assert_eq!(builder.params().smooth_lambda, None);
    assert_eq!(builder.params().asls, asls(3.0, 4));
    assert_eq!(*builder.input(), y.as_slice());
    assert_eq!(builder.with_params(params.clone()).params(), &params);
}

#[test]
fn cwt_br_builder_sets_scales() {
    let y = [0.0f64; 8];
    let params = CwtBrParams {
        poly_order: 5,
        scales: None,
        num_std: 1.0,
        min_length: 2,
        max_iter: 50,
        tol: 1.0e-3,
        symmetric: false,
    };
    let builder = CwtBrBuilder::new(&y[..], params.clone())
        .poly_order(2)
        .scales(vec![8])
        .num_std(2.5)
        .min_length(4)
        .max_iter(9)
        .tol(0.5)
        .symmetric(true);
    assert_eq!(
        *builder.params(),
        CwtBrParams {
            poly_order: 2,
            scales: Some(vec![8]),
            num_std: 2.5,
            min_length: 4,
            max_iter: 9,
            tol: 0.5,
            symmetric: true,
        }
    );
    let builder = builder.auto_scales();
    assert_eq!(builder.params().scales, None);
    assert_eq!(*builder.input(), &y[..]);
    assert_eq!(builder.with_params(params.clone()).params(), &params);
}

pub mod wave;
